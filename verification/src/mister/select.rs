//! Picking one save file per game when a source holds several (say a
//! `.srm` and a `.sav` of the same game): the one in the format the system's
//! saves are kept in wins.
use vstd::prelude::*;
use crate::mister::sources::{EmulatorProfile, SourceKind};
use crate::mister::syncer::{
    is_native_n64_ext, is_native_n64_extension, preferred_extension, preferred_extension_for_system, save_extension,
};
use crate::steamdeck::scanner::lower_ext;
use crate::steamdeck::syncer::deck_extension;
use crate::text::str_eq;

verus! {

/// How well a save file fits: 2 when its extension is the one its system's
/// saves are kept under on the source (for N64, any native N64 extension),
/// 1 otherwise.
pub open spec fn save_score(profile: EmulatorProfile, slug: Seq<char>, ext: Option<Seq<char>>, size: Option<u64>) -> u8 {
    match preferred_extension(profile, slug, size) {
        Some(p) => if (slug == "n64"@ && is_native_n64_ext(ext)) || ext == Some(p) {
            2
        } else {
            1
        },
        None => 1,
    }
}

pub fn save_preference_score(
    source_kind: &SourceKind,
    source_profile: &EmulatorProfile,
    system_slug: &str,
    save_path: &str,
    save_size: Option<u64>,
) -> (r: u8)
    ensures
        r == save_score(*source_profile, system_slug@, lower_ext(save_path@), save_size),
{
    let ext = save_extension(save_path);
    match preferred_extension_for_system(source_kind, source_profile, system_slug, save_size) {
        Some(p) => {
            let native = match &ext {
                Some(e) => is_native_n64_extension(Some(e.as_str())),
                None => is_native_n64_extension(None),
            };
            let same = match &ext {
                Some(e) => str_eq(e.as_str(), p),
                None => false,
            };
            if (str_eq(system_slug, "n64") && native) || same {
                2
            } else {
                1
            }
        },
        None => 1,
    }
}

/// The same score on the Steam Deck helper, where only the preferred
/// extension counts.
pub open spec fn deck_save_score(kind: SourceKind, profile: EmulatorProfile, slug: Seq<char>, ext: Option<Seq<char>>, size: Option<u64>) -> u8 {
    match deck_extension(kind, profile, slug, size) {
        Some(p) => if ext == Some(p) {
            2
        } else {
            1
        },
        None => 1,
    }
}

pub fn deck_save_preference_score(
    source_kind: &SourceKind,
    source_profile: &EmulatorProfile,
    system_slug: &str,
    save_path: &str,
    save_size: Option<u64>,
) -> (r: u8)
    ensures
        r == deck_save_score(*source_kind, *source_profile, system_slug@, lower_ext(save_path@), save_size),
{
    let ext = save_extension(save_path);
    match crate::steamdeck::syncer::preferred_extension_for_system(source_kind, source_profile, system_slug, save_size) {
        Some(p) => {
            let same = match &ext {
                Some(e) => str_eq(e.as_str(), p),
                None => false,
            };
            if same {
                2
            } else {
                1
            }
        },
        None => 1,
    }
}

/// A save file that may be picked for its game, with the key of the game
/// and its score.
#[derive(Debug, Clone)]
pub struct SaveChoice {
    pub key: String,
    pub path: String,
    pub score: u8,
}

/// The first place in the list of a choice for the game `k`; the length
/// when there is none.
pub open spec fn key_pos(cs: Seq<SaveChoice>, k: Seq<char>) -> int
    decreases cs.len(),
{
    if cs.len() == 0 {
        0
    } else {
        let j = key_pos(cs.drop_last(), k);
        if j < cs.len() - 1 {
            j
        } else if cs.last().key@ == k {
            cs.len() - 1
        } else {
            cs.len() as int
        }
    }
}

/// The picks after one more file: a file of a game not seen yet is picked;
/// one of a seen game replaces the pick only with a higher score.
pub open spec fn pick(picked: Seq<SaveChoice>, c: SaveChoice) -> Seq<SaveChoice> {
    let i = key_pos(picked, c.key@);
    if i < picked.len() {
        if c.score > picked[i].score {
            picked.update(i, c)
        } else {
            picked
        }
    } else {
        picked.push(c)
    }
}

/// The picks of the files, in order: one per game, in the order the games
/// were first seen.
pub open spec fn picks(cs: Seq<SaveChoice>) -> Seq<SaveChoice>
    decreases cs.len(),
{
    if cs.len() == 0 {
        seq![]
    } else {
        pick(picks(cs.drop_last()), cs.last())
    }
}

proof fn lemma_key_pos(cs: Seq<SaveChoice>, k: Seq<char>, i: int)
    requires
        0 <= i <= cs.len(),
        forall|j: int| 0 <= j < i ==> (#[trigger] cs[j]).key@ != k,
        i < cs.len() ==> cs[i].key@ == k,
    ensures
        key_pos(cs, k) == i,
    decreases cs.len(),
{
    if cs.len() > 0 {
        let d = cs.drop_last();
        if i < cs.len() - 1 {
            assert forall|j: int| 0 <= j < i implies (#[trigger] d[j]).key@ != k by {
                assert(d[j] == cs[j]);
            }
            assert(d[i] == cs[i]);
            lemma_key_pos(d, k, i);
        } else {
            assert forall|j: int| 0 <= j < d.len() implies (#[trigger] d[j]).key@ != k by {
                assert(d[j] == cs[j]);
            }
            lemma_key_pos(d, k, d.len() as int);
        }
    }
}

proof fn lemma_key_pos_props(cs: Seq<SaveChoice>, k: Seq<char>)
    ensures
        0 <= key_pos(cs, k) <= cs.len(),
        key_pos(cs, k) < cs.len() ==> cs[key_pos(cs, k)].key@ == k,
        forall|j: int| 0 <= j < key_pos(cs, k) ==> (#[trigger] cs[j]).key@ != k,
    decreases cs.len(),
{
    if cs.len() > 0 {
        let d = cs.drop_last();
        lemma_key_pos_props(d, k);
        assert forall|j: int| 0 <= j < d.len() implies d[j] == cs[j] by {}
    }
}

fn add_choice(picked: &mut Vec<SaveChoice>, c: SaveChoice)
    ensures
        final(picked)@ == pick(old(picked)@, c),
{
    let mut i: usize = 0;
    while i < picked.len()
        invariant
            0 <= i <= picked@.len(),
            picked@ == old(picked)@,
            forall|j: int| 0 <= j < i ==> (#[trigger] picked@[j]).key@ != c.key@,
        decreases picked@.len() - i,
    {
        if str_eq(picked[i].key.as_str(), c.key.as_str()) {
            proof {
                lemma_key_pos(picked@, c.key@, i as int);
            }
            if c.score > picked[i].score {
                picked.set(i, c);
            }
            return;
        }
        i = i + 1;
    }
    proof {
        lemma_key_pos(picked@, c.key@, i as int);
    }
    picked.push(c);
}

/// Picks one save file per game; see `picks`.
pub fn select_preferred_save_per_stem(choices: Vec<SaveChoice>) -> (r: Vec<SaveChoice>)
    ensures
        r@ == picks(choices@),
{
    let ghost all = choices@;
    let mut rest = choices;
    let mut out: Vec<SaveChoice> = Vec::new();
    let n = rest.len();
    let mut i: usize = 0;
    while rest.len() > 0
        invariant
            n == all.len(),
            i + rest@.len() == n,
            rest@ == all.subrange(i as int, n as int),
            out@ == picks(all.subrange(0, i as int)),
        decreases rest@.len(),
    {
        let c = rest.remove(0);
        assert(c == all[i as int]);
        assert(rest@ =~= all.subrange(i + 1, n as int));
        assert(all.subrange(0, i + 1).drop_last() =~= all.subrange(0, i as int));
        assert(all.subrange(0, i + 1).last() == all[i as int]);
        add_choice(&mut out, c);
        i = i + 1;
    }
    assert(all.subrange(0, n as int) =~= all);
    out
}

/// One pick per game, of the best score: the picks hold each game once,
/// every file's game is among them, and no file of a game scores above its
/// pick.
pub proof fn law_one_best_pick_per_game(cs: Seq<SaveChoice>)
    ensures
        forall|a: int, b: int| 0 <= a < b < picks(cs).len() ==> (#[trigger] picks(cs)[a]).key@ != (#[trigger] picks(cs)[b]).key@,
        forall|j: int| 0 <= j < cs.len() ==> exists|i: int| 0 <= i < picks(cs).len() && (#[trigger] picks(cs)[i]).key@ == (#[trigger] cs[j]).key@ && cs[j].score <= picks(cs)[i].score,
    decreases cs.len(),
{
    if cs.len() > 0 {
        let d = cs.drop_last();
        let c = cs.last();
        law_one_best_pick_per_game(d);
        let p = picks(d);
        lemma_key_pos_props(p, c.key@);
        let i = key_pos(p, c.key@);
        let q = picks(cs);
        assert(q == pick(p, c));
        assert forall|j: int| 0 <= j < cs.len() implies exists|k: int| 0 <= k < q.len() && (#[trigger] q[k]).key@ == (#[trigger] cs[j]).key@ && cs[j].score <= q[k].score by {
            if j == cs.len() - 1 {
                if i < p.len() {
                    assert(q[i].key@ == c.key@);
                } else {
                    assert(q[p.len() as int] == c);
                }
            } else {
                assert(cs[j] == d[j]);
                let k = choose|k: int| 0 <= k < p.len() && (#[trigger] p[k]).key@ == d[j].key@ && d[j].score <= p[k].score;
                assert(q[k].key@ == p[k].key@);
                assert(q[k].score >= p[k].score);
            }
        }
    }
}

} // verus!
