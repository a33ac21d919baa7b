//! Writing the sources into the configuration file and reading them back.
use vstd::prelude::*;
use crate::ini::{dequote, lookup, is_skipped_line, lines, lines_state, pair_key, pair_value, strip_cr};
use crate::mister::sources::{
    block_values, config_lines, insert_by_id, order_by_id, first_or, kind_name, profile_name, source_block, systems_text, Source,
    close_section, header_name, id_body_ok, law_source_settings_read_back, rendered_config, sections_state,
    all_sync_systems, alnum_lower, named_systems, names_system, sorted_sync_systems, system_split_state, system_tokens, SourceKind, system_slug, sections_with_save, source_describes, without_source_sections, drop_blank_tail, strip_state, source_sections, systems_setting, id_char_ok, is_header, opened_section, source_id, source_prefix, SectionView,
};
use crate::text::{lemma_plain_word, lower, bool_text, lemma_lex_total, lemma_lex_trans, lex_le, escape_quotes, starts_with, strip_lead, strip_trail, first_index, is_ws, join_with, lemma_first_index_bounds, trim, lemma_trim_keeps, upper_text, upper_char, trim_start, trim_end};

verus! {

// ---------------------------------------------------------------------------
// Lines joined by new lines split back into the same lines
// ---------------------------------------------------------------------------

/// A line that holds no new line and does not end in a carriage return.
pub open spec fn plain_line(l: Seq<char>) -> bool {
    &&& forall|i: int| 0 <= i < l.len() ==> #[trigger] l[i] != '\n'
    &&& (l.len() > 0 ==> l.last() != '\r')
}

proof fn lemma_lines_state_chars(p: Seq<char>, l: Seq<char>)
    requires
        lines_state(p).1 == Seq::<char>::empty(),
        forall|i: int| 0 <= i < l.len() ==> #[trigger] l[i] != '\n',
    ensures
        lines_state(p + l) == (lines_state(p).0, l),
    decreases l.len(),
{
    if l.len() == 0 {
        assert(p + l =~= p);
    } else {
        lemma_lines_state_chars(p, l.drop_last());
        assert((p + l).drop_last() =~= p + l.drop_last());
        assert((p + l).last() == l.last());
        assert(l.drop_last().push(l.last()) =~= l);
    }
}

proof fn lemma_lines_state_line(p: Seq<char>, l: Seq<char>)
    requires
        lines_state(p).1 == Seq::<char>::empty(),
        plain_line(l),
    ensures
        lines_state(p + l + seq!['\n']) == (lines_state(p).0.push(l), Seq::<char>::empty()),
{
    lemma_lines_state_chars(p, l);
    let q = p + l + seq!['\n'];
    assert(q.drop_last() =~= p + l);
    assert(q.last() == '\n');
    assert(strip_cr(l) == l);
}

/// Lines joined by new lines, with a new line at the end, read back as the
/// same lines.
pub proof fn lemma_lines_of_joined(ls: Seq<Seq<char>>)
    requires
        ls.len() > 0,
        forall|i: int| 0 <= i < ls.len() ==> plain_line(#[trigger] ls[i]),
    ensures
        lines_state(join_with(ls, "\n"@) + "\n"@) == (ls, Seq::<char>::empty()),
        lines(join_with(ls, "\n"@) + "\n"@) == ls,
    decreases ls.len(),
{
    reveal_strlit("\n");
    assert("\n"@ =~= seq!['\n']);
    if ls.len() == 1 {
        assert(lines_state(Seq::<char>::empty()) == (Seq::<Seq<char>>::empty(), Seq::<char>::empty()));
        lemma_lines_state_line(Seq::<char>::empty(), ls[0]);
        assert(Seq::<char>::empty() + ls[0] + seq!['\n'] =~= join_with(ls, "\n"@) + "\n"@);
        assert(Seq::<Seq<char>>::empty().push(ls[0]) =~= ls);
    } else {
        let d = ls.drop_last();
        assert forall|i: int| 0 <= i < d.len() implies plain_line(#[trigger] d[i]) by {
            assert(d[i] == ls[i]);
        }
        lemma_lines_of_joined(d);
        let p = join_with(d, "\n"@) + "\n"@;
        assert(plain_line(ls[ls.len() - 1]));
        lemma_lines_state_line(p, ls.last());
        assert(p + ls.last() + seq!['\n'] =~= join_with(ls, "\n"@) + "\n"@);
        assert(d.push(ls.last()) =~= ls);
    }
}

// ---------------------------------------------------------------------------
// One setting line and one header line
// ---------------------------------------------------------------------------

/// A character of a setting's key: an upper-case ASCII letter or `_`.
pub open spec fn key_char(c: char) -> bool {
    ('A' <= c && c <= 'Z') || c == '_'
}

pub open spec fn plain_key(k: Seq<char>) -> bool {
    k.len() > 0 && forall|i: int| 0 <= i < k.len() ==> key_char(#[trigger] k[i])
}

/// A value with no new line in it.
pub open spec fn plain_value(v: Seq<char>) -> bool {
    forall|i: int| 0 <= i < v.len() ==> #[trigger] v[i] != '\n'
}

proof fn lemma_setting_line(key: Seq<char>, v: Seq<char>)
    requires
        plain_key(key),
        plain_value(v),
    ensures
        ({
            let t = key + "=\""@ + v + "\""@;
            &&& trim(t) == t
            &&& plain_line(t)
            &&& !is_skipped_line(t)
            &&& !is_header(t)
            &&& first_index(t, '=') >= 0
            &&& pair_key(t) == upper_text(key)
            &&& pair_value(t) == v
        }),
{
    reveal_strlit("=\"");
    reveal_strlit("\"");
    let t = key + "=\""@ + v + "\""@;
    let n: int = key.len() as int;
    assert(t.len() == n + v.len() + 3);
    assert(t[0] == key[0]);
    assert(t.last() == '"');
    assert(key_char(key[0]));
    lemma_trim_keeps(t);
    assert forall|i: int| 0 <= i < t.len() implies #[trigger] t[i] != '\n' by {
        if i < n {
            assert(t[i] == key[i]);
            assert(key_char(key[i]));
        } else if n + 2 <= i < n + 2 + v.len() {
            assert(t[i] == v[i - n - 2]);
        }
    }
    // The first `=` is the one after the key.
    assert(t.subrange(0, n + 1) =~= key.push('='));
    assert forall|i: int| 0 <= i < n implies #[trigger] key.push('=')[i] != '=' by {
        assert(key_char(key[i]));
    }
    lemma_first_index_bounds(key.push('='), '=');
    assert(first_index(key.push('='), '=') == n) by {
        lemma_first_index_bounds(key.push('='), '=');
        assert(key.push('=')[n] == '=');
    }
    crate::text::lemma_first_index_prefix(t, '=', n + 1);
    assert(t.subrange(0, n + 1) == key.push('='));
    assert(first_index(t, '=') == n);
    assert(t.subrange(0, n) =~= key);
    lemma_trim_keeps(key);
    let rest = t.subrange(n + 1, t.len() as int);
    assert(rest =~= "\""@ + v + "\""@);
    lemma_trim_keeps(rest);
    assert(dequote(rest) =~= v);
}

proof fn lemma_header_line(id: Seq<char>)
    requires
        id.len() > 0,
        id_body_ok(id),
        source_id(id) == id,
    ensures
        ({
            let t = "[source."@ + id + "]"@;
            &&& trim(t) == t
            &&& plain_line(t)
            &&& !is_skipped_line(t)
            &&& is_header(t)
            &&& opened_section(t) == Some(SectionView { id, values: seq![] })
        }),
{
    reveal_strlit("[source.");
    reveal_strlit("]");
    reveal_strlit("source.");
    let t = "[source."@ + id + "]"@;
    let n: int = id.len() as int;
    assert(t.len() == n + 9);
    assert(t[0] == '[' && t.last() == ']');
    lemma_trim_keeps(t);
    assert forall|i: int| 0 <= i < t.len() implies #[trigger] t[i] != '\n' by {
        if 8 <= i < 8 + n {
            assert(t[i] == id[i - 8]);
            assert(id_char_ok(id[i - 8]));
        }
    }
    let u = t.drop_first();
    assert(u[0] == 's');
    assert(strip_lead(t, '[') == strip_lead(u, '['));
    assert(strip_lead(u, '[') == u);
    assert(u.last() == ']');
    let w = u.drop_last();
    assert(w.last() == id[n - 1]);
    assert(id_char_ok(id[n - 1]));
    assert(strip_trail(u, ']') == strip_trail(w, ']'));
    assert(strip_trail(w, ']') == w);
    assert(w =~= "source."@ + id);
    assert(header_name(t) == w);
    assert(w.subrange(0, 7) =~= "source."@);
    assert(starts_with(w, source_prefix()));
    assert(w.subrange(7, w.len() as int) =~= id);
}

// ---------------------------------------------------------------------------
// Reading sections line by line
// ---------------------------------------------------------------------------

proof fn lemma_step_setting(q: Seq<Seq<char>>, done: Seq<SectionView>, c: SectionView, key: Seq<char>, v: Seq<char>)
    requires
        sections_state(q) == Ok::<(Seq<SectionView>, Option<SectionView>), nat>((done, Some(c))),
        plain_key(key),
        plain_value(v),
    ensures
        sections_state(q.push(key + "=\""@ + v + "\""@)) == Ok::<(Seq<SectionView>, Option<SectionView>), nat>((
            done,
            Some(SectionView { id: c.id, values: c.values.push((upper_text(key), v)) }),
        )),
{
    lemma_setting_line(key, v);
    let l = key + "=\""@ + v + "\""@;
    assert(q.push(l).drop_last() =~= q);
    assert(q.push(l).last() == l);
}

proof fn lemma_step_header(q: Seq<Seq<char>>, done: Seq<SectionView>, cur: Option<SectionView>, id: Seq<char>)
    requires
        sections_state(q) == Ok::<(Seq<SectionView>, Option<SectionView>), nat>((done, cur)),
        id.len() > 0,
        id_body_ok(id),
        source_id(id) == id,
    ensures
        sections_state(q.push("[source."@ + id + "]"@)) == Ok::<(Seq<SectionView>, Option<SectionView>), nat>((
            close_section(done, cur),
            Some(SectionView { id, values: seq![] }),
        )),
{
    lemma_header_line(id);
    let l = "[source."@ + id + "]"@;
    assert(q.push(l).drop_last() =~= q);
    assert(q.push(l).last() == l);
}

proof fn lemma_step_blank(q: Seq<Seq<char>>)
    requires
        sections_state(q) is Ok,
    ensures
        sections_state(q.push(seq![])) == sections_state(q),
{
    assert(q.push(seq![]).drop_last() =~= q);
    assert(trim(Seq::<char>::empty()) =~= Seq::<char>::empty());
}

/// A value with neither a double quote nor a new line in it.
pub open spec fn quote_free(v: Seq<char>) -> bool {
    forall|i: int| 0 <= i < v.len() ==> #[trigger] v[i] != '"' && v[i] != '\n'
}

proof fn lemma_escape_free(v: Seq<char>)
    requires
        quote_free(v),
    ensures
        escape_quotes(v) == v,
        plain_value(v),
    decreases v.len(),
{
    if v.len() > 0 {
        assert(quote_free(v.drop_last())) by {
            assert forall|i: int| 0 <= i < v.drop_last().len() implies #[trigger] v.drop_last()[i] != '"' && v.drop_last()[i] != '\n' by {
                assert(v.drop_last()[i] == v[i]);
            }
        }
        lemma_escape_free(v.drop_last());
        assert(v[v.len() - 1] != '"');
        assert(v.drop_last().push(v.last()) =~= v);
    }
}

/// A source that can be written as a section and read back: an id that is
/// its own identifier, and values without quotes or new lines.
pub open spec fn storable(x: Source) -> bool {
    &&& x.id@.len() > 0
    &&& id_body_ok(x.id@)
    &&& source_id(x.id@) == x.id@
    &&& quote_free(x.name@)
    &&& quote_free(first_or(x.save_roots.deep_view(), "."@))
    &&& quote_free(first_or(x.rom_roots.deep_view(), first_or(x.save_roots.deep_view(), "."@)))
    &&& quote_free(systems_text(x.systems.deep_view()))
    &&& quote_free(x.origin@)
}

/// The settings a source's section reads as: each key as upper-cased by
/// `str::to_uppercase`, each value as written.
pub open spec fn read_values(x: Source) -> Seq<(Seq<char>, Seq<char>)> {
    block_values(x).map_values(|kv: (Seq<char>, Seq<char>)| (upper_text(kv.0), kv.1))
}

proof fn lemma_fixed_words_plain(x: Source)
    ensures
        plain_value(kind_name(x.kind)),
        plain_value(profile_name(x.profile)),
        plain_value(bool_text(x.recursive)),
        plain_value(bool_text(x.create_missing_system_dirs)),
        plain_value(bool_text(x.managed)),
{
    reveal_strlit("mister-fpga");
    reveal_strlit("retroarch");
    reveal_strlit("custom");
    reveal_strlit("openemu");
    reveal_strlit("analogue-pocket");
    reveal_strlit("windows");
    reveal_strlit("steamdeck");
    reveal_strlit("mister");
    reveal_strlit("snes9x");
    reveal_strlit("zsnes");
    reveal_strlit("everdrive");
    reveal_strlit("project64");
    reveal_strlit("mupen-family");
    reveal_strlit("generic");
    reveal_strlit("true");
    reveal_strlit("false");
}

/// Reading a source's section after the lines `p`: the section open before
/// is closed, and the source's section is open with its settings.
#[verifier::rlimit(80)]
#[verifier::spinoff_prover]
proof fn lemma_block_sections(p: Seq<Seq<char>>, done: Seq<SectionView>, cur: Option<SectionView>, x: Source)
    requires
        sections_state(p) == Ok::<(Seq<SectionView>, Option<SectionView>), nat>((done, cur)),
        storable(x),
    ensures
        sections_state(p + source_block(x)) == Ok::<(Seq<SectionView>, Option<SectionView>), nat>((
            close_section(done, cur),
            Some(SectionView { id: x.id@, values: read_values(x) }),
        )),
{
    lemma_fixed_words_plain(x);
    let b = source_block(x);
    let q0 = p;
    let q1 = q0.push(b[0]);
    lemma_step_header(q0, done, cur, x.id@);
    let c0 = SectionView { id: x.id@, values: seq![] };
    reveal_strlit("LABEL");
    assert(plain_key("LABEL"@));
    lemma_escape_free(x.name@);
    assert(b[1] == "LABEL"@ + "=\""@ + escape_quotes(x.name@) + "\""@);
    let q2 = q1.push(b[1]);
    lemma_step_setting(q1, close_section(done, cur), c0, "LABEL"@, escape_quotes(x.name@));
    let c1 = SectionView { id: x.id@, values: c0.values.push((upper_text("LABEL"@), escape_quotes(x.name@))) };
    reveal_strlit("KIND");
    assert(plain_key("KIND"@));
    assert(b[2] == "KIND"@ + "=\""@ + kind_name(x.kind) + "\""@);
    let q3 = q2.push(b[2]);
    lemma_step_setting(q2, close_section(done, cur), c1, "KIND"@, kind_name(x.kind));
    let c2 = SectionView { id: x.id@, values: c1.values.push((upper_text("KIND"@), kind_name(x.kind))) };
    reveal_strlit("PROFILE");
    assert(plain_key("PROFILE"@));
    assert(b[3] == "PROFILE"@ + "=\""@ + profile_name(x.profile) + "\""@);
    let q4 = q3.push(b[3]);
    lemma_step_setting(q3, close_section(done, cur), c2, "PROFILE"@, profile_name(x.profile));
    let c3 = SectionView { id: x.id@, values: c2.values.push((upper_text("PROFILE"@), profile_name(x.profile))) };
    reveal_strlit("SAVE_PATH");
    assert(plain_key("SAVE_PATH"@));
    lemma_escape_free(first_or(x.save_roots.deep_view(), "."@));
    assert(b[4] == "SAVE_PATH"@ + "=\""@ + escape_quotes(first_or(x.save_roots.deep_view(), "."@)) + "\""@);
    let q5 = q4.push(b[4]);
    lemma_step_setting(q4, close_section(done, cur), c3, "SAVE_PATH"@, escape_quotes(first_or(x.save_roots.deep_view(), "."@)));
    let c4 = SectionView { id: x.id@, values: c3.values.push((upper_text("SAVE_PATH"@), escape_quotes(first_or(x.save_roots.deep_view(), "."@)))) };
    reveal_strlit("ROM_PATH");
    assert(plain_key("ROM_PATH"@));
    lemma_escape_free(first_or(x.rom_roots.deep_view(), first_or(x.save_roots.deep_view(), "."@)));
    assert(b[5] == "ROM_PATH"@ + "=\""@ + escape_quotes(first_or(x.rom_roots.deep_view(), first_or(x.save_roots.deep_view(), "."@))) + "\""@);
    let q6 = q5.push(b[5]);
    lemma_step_setting(q5, close_section(done, cur), c4, "ROM_PATH"@, escape_quotes(first_or(x.rom_roots.deep_view(), first_or(x.save_roots.deep_view(), "."@))));
    let c5 = SectionView { id: x.id@, values: c4.values.push((upper_text("ROM_PATH"@), escape_quotes(first_or(x.rom_roots.deep_view(), first_or(x.save_roots.deep_view(), "."@))))) };
    reveal_strlit("RECURSIVE");
    assert(plain_key("RECURSIVE"@));
    assert(b[6] == "RECURSIVE"@ + "=\""@ + bool_text(x.recursive) + "\""@);
    let q7 = q6.push(b[6]);
    lemma_step_setting(q6, close_section(done, cur), c5, "RECURSIVE"@, bool_text(x.recursive));
    let c6 = SectionView { id: x.id@, values: c5.values.push((upper_text("RECURSIVE"@), bool_text(x.recursive))) };
    reveal_strlit("SYSTEMS");
    assert(plain_key("SYSTEMS"@));
    lemma_escape_free(systems_text(x.systems.deep_view()));
    assert(b[7] == "SYSTEMS"@ + "=\""@ + escape_quotes(systems_text(x.systems.deep_view())) + "\""@);
    let q8 = q7.push(b[7]);
    lemma_step_setting(q7, close_section(done, cur), c6, "SYSTEMS"@, escape_quotes(systems_text(x.systems.deep_view())));
    let c7 = SectionView { id: x.id@, values: c6.values.push((upper_text("SYSTEMS"@), escape_quotes(systems_text(x.systems.deep_view())))) };
    reveal_strlit("CREATE_MISSING_SYSTEM_DIRS");
    assert(plain_key("CREATE_MISSING_SYSTEM_DIRS"@));
    assert(b[8] == "CREATE_MISSING_SYSTEM_DIRS"@ + "=\""@ + bool_text(x.create_missing_system_dirs) + "\""@);
    let q9 = q8.push(b[8]);
    lemma_step_setting(q8, close_section(done, cur), c7, "CREATE_MISSING_SYSTEM_DIRS"@, bool_text(x.create_missing_system_dirs));
    let c8 = SectionView { id: x.id@, values: c7.values.push((upper_text("CREATE_MISSING_SYSTEM_DIRS"@), bool_text(x.create_missing_system_dirs))) };
    reveal_strlit("MANAGED");
    assert(plain_key("MANAGED"@));
    assert(b[9] == "MANAGED"@ + "=\""@ + bool_text(x.managed) + "\""@);
    let q10 = q9.push(b[9]);
    lemma_step_setting(q9, close_section(done, cur), c8, "MANAGED"@, bool_text(x.managed));
    let c9 = SectionView { id: x.id@, values: c8.values.push((upper_text("MANAGED"@), bool_text(x.managed))) };
    reveal_strlit("ORIGIN");
    assert(plain_key("ORIGIN"@));
    lemma_escape_free(x.origin@);
    assert(b[10] == "ORIGIN"@ + "=\""@ + escape_quotes(x.origin@) + "\""@);
    let q11 = q10.push(b[10]);
    lemma_step_setting(q10, close_section(done, cur), c9, "ORIGIN"@, escape_quotes(x.origin@));
    let c10 = SectionView { id: x.id@, values: c9.values.push((upper_text("ORIGIN"@), escape_quotes(x.origin@))) };
    assert(p + b =~= q11);
    assert(c10.values =~= read_values(x));
}

/// The lines of a storable source's section are plain lines.
#[verifier::rlimit(60)]
proof fn lemma_block_plain(x: Source)
    requires
        storable(x),
    ensures
        forall|i: int| 0 <= i < source_block(x).len() ==> plain_line(#[trigger] source_block(x)[i]),
{
    lemma_fixed_words_plain(x);
    let b = source_block(x);
    assert forall|i: int| 0 <= i < b.len() implies plain_line(#[trigger] b[i]) by {
        if i == 0 {
            lemma_header_line(x.id@);
        } else if i == 1 {
            reveal_strlit("LABEL");
            assert(plain_key("LABEL"@));
            lemma_escape_free(x.name@);
            lemma_setting_line("LABEL"@, escape_quotes(x.name@));
            assert(b[1] == "LABEL"@ + "=\""@ + escape_quotes(x.name@) + "\""@);
        } else if i == 2 {
            reveal_strlit("KIND");
            assert(plain_key("KIND"@));
            lemma_setting_line("KIND"@, kind_name(x.kind));
            assert(b[2] == "KIND"@ + "=\""@ + kind_name(x.kind) + "\""@);
        } else if i == 3 {
            reveal_strlit("PROFILE");
            assert(plain_key("PROFILE"@));
            lemma_setting_line("PROFILE"@, profile_name(x.profile));
            assert(b[3] == "PROFILE"@ + "=\""@ + profile_name(x.profile) + "\""@);
        } else if i == 4 {
            reveal_strlit("SAVE_PATH");
            assert(plain_key("SAVE_PATH"@));
            lemma_escape_free(first_or(x.save_roots.deep_view(), "."@));
            lemma_setting_line("SAVE_PATH"@, escape_quotes(first_or(x.save_roots.deep_view(), "."@)));
            assert(b[4] == "SAVE_PATH"@ + "=\""@ + escape_quotes(first_or(x.save_roots.deep_view(), "."@)) + "\""@);
        } else if i == 5 {
            reveal_strlit("ROM_PATH");
            assert(plain_key("ROM_PATH"@));
            lemma_escape_free(first_or(x.rom_roots.deep_view(), first_or(x.save_roots.deep_view(), "."@)));
            lemma_setting_line("ROM_PATH"@, escape_quotes(first_or(x.rom_roots.deep_view(), first_or(x.save_roots.deep_view(), "."@))));
            assert(b[5] == "ROM_PATH"@ + "=\""@ + escape_quotes(first_or(x.rom_roots.deep_view(), first_or(x.save_roots.deep_view(), "."@))) + "\""@);
        } else if i == 6 {
            reveal_strlit("RECURSIVE");
            assert(plain_key("RECURSIVE"@));
            lemma_setting_line("RECURSIVE"@, bool_text(x.recursive));
            assert(b[6] == "RECURSIVE"@ + "=\""@ + bool_text(x.recursive) + "\""@);
        } else if i == 7 {
            reveal_strlit("SYSTEMS");
            assert(plain_key("SYSTEMS"@));
            lemma_escape_free(systems_text(x.systems.deep_view()));
            lemma_setting_line("SYSTEMS"@, escape_quotes(systems_text(x.systems.deep_view())));
            assert(b[7] == "SYSTEMS"@ + "=\""@ + escape_quotes(systems_text(x.systems.deep_view())) + "\""@);
        } else if i == 8 {
            reveal_strlit("CREATE_MISSING_SYSTEM_DIRS");
            assert(plain_key("CREATE_MISSING_SYSTEM_DIRS"@));
            lemma_setting_line("CREATE_MISSING_SYSTEM_DIRS"@, bool_text(x.create_missing_system_dirs));
            assert(b[8] == "CREATE_MISSING_SYSTEM_DIRS"@ + "=\""@ + bool_text(x.create_missing_system_dirs) + "\""@);
        } else if i == 9 {
            reveal_strlit("MANAGED");
            assert(plain_key("MANAGED"@));
            lemma_setting_line("MANAGED"@, bool_text(x.managed));
            assert(b[9] == "MANAGED"@ + "=\""@ + bool_text(x.managed) + "\""@);
        } else if i == 10 {
            reveal_strlit("ORIGIN");
            assert(plain_key("ORIGIN"@));
            lemma_escape_free(x.origin@);
            lemma_setting_line("ORIGIN"@, escape_quotes(x.origin@));
            assert(b[10] == "ORIGIN"@ + "=\""@ + escape_quotes(x.origin@) + "\""@);
        }
    }
}

// ---------------------------------------------------------------------------
// The whole configuration
// ---------------------------------------------------------------------------

/// The section a storable source is read back as.
pub open spec fn section_of(x: Source) -> SectionView {
    SectionView { id: x.id@, values: read_values(x) }
}

/// The sections of the sources at the positions `ord`, in that order.
pub open spec fn sections_at(s: Seq<Source>, ord: Seq<int>) -> Seq<SectionView> {
    Seq::new(ord.len(), |k: int| section_of(s[ord[k]]))
}

pub open spec fn valid_order(s: Seq<Source>, ord: Seq<int>) -> bool {
    forall|k: int| 0 <= k < ord.len() ==> 0 <= #[trigger] ord[k] < s.len()
}

proof fn lemma_insert_by_id(s: Seq<Source>, sorted: Seq<int>, x: int, n: int)
    requires
        0 <= x < n,
        forall|k: int| 0 <= k < sorted.len() ==> 0 <= #[trigger] sorted[k] < n,
    ensures
        insert_by_id(s, sorted, x).len() == sorted.len() + 1,
        forall|k: int| 0 <= k < insert_by_id(s, sorted, x).len() ==> 0 <= #[trigger] insert_by_id(s, sorted, x)[k] < n,
    decreases sorted.len(),
{
    if sorted.len() > 0 && !lex_le(s[sorted.last()].id@, s[x].id@) {
        let d = sorted.drop_last();
        assert forall|k: int| 0 <= k < d.len() implies 0 <= #[trigger] d[k] < n by {
            assert(d[k] == sorted[k]);
        }
        lemma_insert_by_id(s, d, x, n);
        assert(0 <= sorted[sorted.len() - 1] < n);
    }
}

/// The positions the sources are written in: each source once per position
/// counted, `n` of them, all in range.
proof fn lemma_order_by_id(s: Seq<Source>, n: nat)
    requires
        n <= s.len(),
    ensures
        order_by_id(s, n).len() == n,
        forall|k: int| 0 <= k < order_by_id(s, n).len() ==> 0 <= #[trigger] order_by_id(s, n)[k] < n,
    decreases n,
{
    if n > 0 {
        lemma_order_by_id(s, (n - 1) as nat);
        lemma_insert_by_id(s, order_by_id(s, (n - 1) as nat), n - 1, n as int);
    }
}

/// Upper-casing leaves a key of upper-case ASCII letters and `_` as it is.
proof fn lemma_keys_upper_fixed()
    ensures
        forall|k: Seq<char>| plain_key(k) ==> #[trigger] upper_text(k) == k,
{
    assert forall|k: Seq<char>| plain_key(k) implies #[trigger] upper_text(k) == k by {
        assert forall|i: int| 0 <= i < k.len() implies (#[trigger] k[i]) <= '\u{7f}' by {
            assert(key_char(k[i]));
        }
        assert forall|i: int| 0 <= i < k.len() implies #[trigger] upper_char(k[i]) == k[i] by {
            assert(key_char(k[i]));
        }
        assert(k.map_values(|c: char| upper_char(c)) =~= k);
    }
}

proof fn lemma_read_values(x: Source)
    ensures
        read_values(x) == block_values(x),
{
    lemma_keys_upper_fixed();
    reveal_strlit("LABEL");
    reveal_strlit("KIND");
    reveal_strlit("PROFILE");
    reveal_strlit("SAVE_PATH");
    reveal_strlit("ROM_PATH");
    reveal_strlit("RECURSIVE");
    reveal_strlit("SYSTEMS");
    reveal_strlit("CREATE_MISSING_SYSTEM_DIRS");
    reveal_strlit("MANAGED");
    reveal_strlit("ORIGIN");
    let b = block_values(x);
    assert forall|i: int| 0 <= i < b.len() implies plain_key(#[trigger] b[i].0) by {
        if i == 0 { assert(plain_key("LABEL"@)); }
        else if i == 1 { assert(plain_key("KIND"@)); }
        else if i == 2 { assert(plain_key("PROFILE"@)); }
        else if i == 3 { assert(plain_key("SAVE_PATH"@)); }
        else if i == 4 { assert(plain_key("ROM_PATH"@)); }
        else if i == 5 { assert(plain_key("RECURSIVE"@)); }
        else if i == 6 { assert(plain_key("SYSTEMS"@)); }
        else if i == 7 { assert(plain_key("CREATE_MISSING_SYSTEM_DIRS"@)); }
        else if i == 8 { assert(plain_key("MANAGED"@)); }
        else { assert(plain_key("ORIGIN"@)); }
    }
    assert(read_values(x) =~= b);
}

proof fn lemma_lookup_some(pairs: Seq<(Seq<char>, Seq<char>)>, k: Seq<char>, i: int)
    requires
        0 <= i < pairs.len(),
        pairs[i].0 == k,
    ensures
        lookup(pairs, k) is Some,
    decreases pairs.len(),
{
    if pairs.last().0 != k {
        assert(i < pairs.len() - 1);
        assert(pairs.drop_last()[i] == pairs[i]);
        lemma_lookup_some(pairs.drop_last(), k, i);
    }
}

proof fn lemma_all_with_save(secs: Seq<SectionView>)
    requires
        forall|i: int| 0 <= i < secs.len() ==> lookup((#[trigger] secs[i]).values, "SAVE_PATH"@) is Some,
    ensures
        sections_with_save(secs) == secs,
    decreases secs.len(),
{
    if secs.len() > 0 {
        let d = secs.drop_last();
        assert forall|i: int| 0 <= i < d.len() implies lookup((#[trigger] d[i]).values, "SAVE_PATH"@) is Some by {
            assert(d[i] == secs[i]);
        }
        lemma_all_with_save(d);
        assert(lookup(secs[secs.len() - 1].values, "SAVE_PATH"@) is Some);
        assert(d.push(secs.last()) =~= secs);
    }
}

/// `r` is the source `x` read back: every field of `x`, and the systems its
/// `SYSTEMS` setting selects.
pub open spec fn read_back_as(r: Source, x: Source) -> bool {
    &&& r.id@ == x.id@
    &&& r.name@ == x.name@
    &&& r.kind == x.kind
    &&& r.profile == x.profile
    &&& r.save_roots.deep_view() == x.save_roots.deep_view()
    &&& r.rom_roots.deep_view() == x.rom_roots.deep_view()
    &&& r.recursive == x.recursive
    &&& r.create_missing_system_dirs == x.create_missing_system_dirs
    &&& r.managed == x.managed
    &&& r.origin@ == x.origin@
    &&& r.systems.deep_view() == systems_setting(Some(systems_text(x.systems.deep_view())), x.kind)
}

} // verus!

verus! {

// ---------------------------------------------------------------------------
// The systems list written and read back
// ---------------------------------------------------------------------------

/// A character of a system's name: a lower-case letter, a digit or `-`.
pub open spec fn system_char(c: char) -> bool {
    ('a' <= c && c <= 'z') || ('0' <= c && c <= '9') || c == '-'
}

/// A system's name: at least two such characters, and no start that the
/// words `auto`, `none`, `disabled`, `off`, `all` or `*` have.
pub open spec fn system_word_ok(y: Seq<char>) -> bool {
    &&& y.len() >= 2
    &&& forall|i: int| 0 <= i < y.len() ==> system_char(#[trigger] y[i])
    &&& y[0] != 'a' && y[0] != 'o' && y[0] != '*'
    &&& !(y[0] == 'n' && y[1] == 'o')
    &&& !(y[0] == 'd' && y[1] == 'i')
}

proof fn lemma_word_nes()
    ensures
        system_word_ok("nes"@),
{
    reveal_strlit("nes");
}

proof fn lemma_word_snes()
    ensures
        system_word_ok("snes"@),
{
    reveal_strlit("snes");
}

proof fn lemma_word_gameboy()
    ensures
        system_word_ok("gameboy"@),
{
    reveal_strlit("gameboy");
}

proof fn lemma_word_gba()
    ensures
        system_word_ok("gba"@),
{
    reveal_strlit("gba");
}

proof fn lemma_word_n64()
    ensures
        system_word_ok("n64"@),
{
    reveal_strlit("n64");
}

proof fn lemma_word_nds()
    ensures
        system_word_ok("nds"@),
{
    reveal_strlit("nds");
}

proof fn lemma_word_genesis()
    ensures
        system_word_ok("genesis"@),
{
    reveal_strlit("genesis");
}

proof fn lemma_word_master_system()
    ensures
        system_word_ok("master-system"@),
{
    reveal_strlit("master-system");
}

proof fn lemma_word_game_gear()
    ensures
        system_word_ok("game-gear"@),
{
    reveal_strlit("game-gear");
}

proof fn lemma_word_sega_cd()
    ensures
        system_word_ok("sega-cd"@),
{
    reveal_strlit("sega-cd");
}

proof fn lemma_word_sega_32x()
    ensures
        system_word_ok("sega-32x"@),
{
    reveal_strlit("sega-32x");
}

proof fn lemma_word_saturn()
    ensures
        system_word_ok("saturn"@),
{
    reveal_strlit("saturn");
}

proof fn lemma_word_dreamcast()
    ensures
        system_word_ok("dreamcast"@),
{
    reveal_strlit("dreamcast");
}

proof fn lemma_word_neogeo()
    ensures
        system_word_ok("neogeo"@),
{
    reveal_strlit("neogeo");
}

proof fn lemma_word_wii()
    ensures
        system_word_ok("wii"@),
{
    reveal_strlit("wii");
}

proof fn lemma_word_psx()
    ensures
        system_word_ok("psx"@),
{
    reveal_strlit("psx");
}

proof fn lemma_word_ps2()
    ensures
        system_word_ok("ps2"@),
{
    reveal_strlit("ps2");
}

proof fn lemma_word_psp()
    ensures
        system_word_ok("psp"@),
{
    reveal_strlit("psp");
}

proof fn lemma_word_psvita()
    ensures
        system_word_ok("psvita"@),
{
    reveal_strlit("psvita");
}

proof fn lemma_word_ps3()
    ensures
        system_word_ok("ps3"@),
{
    reveal_strlit("ps3");
}

proof fn lemma_word_ps4()
    ensures
        system_word_ok("ps4"@),
{
    reveal_strlit("ps4");
}

proof fn lemma_word_ps5()
    ensures
        system_word_ok("ps5"@),
{
    reveal_strlit("ps5");
}

proof fn lemma_system_word_ok(y: Seq<char>)
    requires
        all_sync_systems().contains(y),
    ensures
        system_word_ok(y),
{
    if y == "nes"@ { lemma_word_nes(); }
    if y == "snes"@ { lemma_word_snes(); }
    if y == "gameboy"@ { lemma_word_gameboy(); }
    if y == "gba"@ { lemma_word_gba(); }
    if y == "n64"@ { lemma_word_n64(); }
    if y == "nds"@ { lemma_word_nds(); }
    if y == "genesis"@ { lemma_word_genesis(); }
    if y == "master-system"@ { lemma_word_master_system(); }
    if y == "game-gear"@ { lemma_word_game_gear(); }
    if y == "sega-cd"@ { lemma_word_sega_cd(); }
    if y == "sega-32x"@ { lemma_word_sega_32x(); }
    if y == "saturn"@ { lemma_word_saturn(); }
    if y == "dreamcast"@ { lemma_word_dreamcast(); }
    if y == "neogeo"@ { lemma_word_neogeo(); }
    if y == "wii"@ { lemma_word_wii(); }
    if y == "psx"@ { lemma_word_psx(); }
    if y == "ps2"@ { lemma_word_ps2(); }
    if y == "psp"@ { lemma_word_psp(); }
    if y == "psvita"@ { lemma_word_psvita(); }
    if y == "ps3"@ { lemma_word_ps3(); }
    if y == "ps4"@ { lemma_word_ps4(); }
    if y == "ps5"@ { lemma_word_ps5(); }
}

/// A list of known systems.
pub open spec fn known_systems(sys: Seq<Seq<char>>) -> bool {
    forall|i: int| 0 <= i < sys.len() ==> all_sync_systems().contains(#[trigger] sys[i])
}

proof fn lemma_split_chars(p: Seq<char>, w: Seq<char>)
    requires
        system_split_state(p).1 == Seq::<char>::empty(),
        forall|i: int| 0 <= i < w.len() ==> system_char(#[trigger] w[i]),
    ensures
        system_split_state(p + w) == (system_split_state(p).0, w),
    decreases w.len(),
{
    if w.len() == 0 {
        assert(p + w =~= p);
    } else {
        let d = w.drop_last();
        assert forall|i: int| 0 <= i < d.len() implies system_char(#[trigger] d[i]) by {
            assert(d[i] == w[i]);
        }
        lemma_split_chars(p, d);
        assert((p + w).drop_last() =~= p + d);
        assert(system_char(w[w.len() - 1]));
        assert(d.push(w.last()) =~= w);
    }
}

/// Facts of the joined list: its state when split, its characters, and its
/// start.
proof fn lemma_split_join(sys: Seq<Seq<char>>)
    requires
        sys.len() > 0,
        forall|i: int| 0 <= i < sys.len() ==> system_word_ok(#[trigger] sys[i]),
    ensures
        system_split_state(join_with(sys, ","@)) == (sys.drop_last(), sys.last()),
        forall|i: int| 0 <= i < join_with(sys, ","@).len() ==> (system_char(#[trigger] join_with(sys, ","@)[i])
            || join_with(sys, ","@)[i] == ','),
        join_with(sys, ","@).len() >= sys[0].len(),
        join_with(sys, ","@).subrange(0, sys[0].len() as int) == sys[0],
        join_with(sys, ","@).last() == sys.last().last(),
    decreases sys.len(),
{
    reveal_strlit(",");
    let j = join_with(sys, ","@);
    assert(system_word_ok(sys[0]));
    if sys.len() == 1 {
        assert(system_word_ok(sys[0]));
        assert(Seq::<char>::empty() + sys[0] =~= sys[0]);
        lemma_split_chars(Seq::<char>::empty(), sys[0]);
        assert(sys.drop_last() =~= Seq::<Seq<char>>::empty());
        assert(j.subrange(0, sys[0].len() as int) =~= sys[0]);
    } else {
        let d = sys.drop_last();
        assert forall|i: int| 0 <= i < d.len() implies system_word_ok(#[trigger] d[i]) by {
            assert(d[i] == sys[i]);
        }
        lemma_split_join(d);
        let jd = join_with(d, ","@);
        let q = jd + ","@;
        assert(q.drop_last() =~= jd);
        assert(q.last() == ',');
        assert(system_split_state(q) == (d.drop_last().push(d.last()), Seq::<char>::empty()));
        assert(d.drop_last().push(d.last()) =~= d);
        assert(system_word_ok(sys[sys.len() - 1]));
        lemma_split_chars(q, sys.last());
        assert(j == q + sys.last());
        assert forall|i: int| 0 <= i < j.len() implies (system_char(#[trigger] j[i]) || j[i] == ',') by {
            if i < jd.len() {
                assert(j[i] == jd[i]);
            } else if i > jd.len() {
                assert(j[i] == sys.last()[i - jd.len() - 1]);
            }
        }
        assert(d[0] == sys[0]);
        assert(j.subrange(0, sys[0].len() as int) =~= jd.subrange(0, sys[0].len() as int));
        assert(sys.last().len() >= 2);
        assert(j.last() == sys.last().last());
    }
}

} // verus!

verus! {

proof fn lemma_named_filter(list: Seq<Seq<char>>, raw: Seq<char>, sys: Seq<Seq<char>>)
    requires
        forall|k: int| 0 <= k < list.len() ==> (names_system(raw, #[trigger] list[k]) <==> sys.contains(list[k])),
    ensures
        named_systems(list, raw) == list.filter(|y: Seq<char>| sys.contains(y)),
    decreases list.len(),
{
    reveal(Seq::filter);
    if list.len() > 0 {
        let d = list.drop_last();
        assert forall|k: int| 0 <= k < d.len() implies (names_system(raw, #[trigger] d[k]) <==> sys.contains(d[k])) by {
            assert(d[k] == list[k]);
        }
        lemma_named_filter(d, raw, sys);
        assert(names_system(raw, list[list.len() - 1]) <==> sys.contains(list[list.len() - 1]));
    }
}

proof fn lemma_filter_empty(list: Seq<Seq<char>>)
    ensures
        list.filter(|y: Seq<char>| Seq::<Seq<char>>::empty().contains(y)) == Seq::<Seq<char>>::empty(),
    decreases list.len(),
{
    reveal(Seq::filter);
    if list.len() > 0 {
        lemma_filter_empty(list.drop_last());
    }
}

/// The systems written for a source read back as the known systems it
/// lists, in the canonical order, each once; none written reads as none.
pub proof fn lemma_systems_read_back(sys: Seq<Seq<char>>, kind: SourceKind)
    requires
        known_systems(sys),
    ensures
        systems_setting(Some(systems_text(sys)), kind) == sorted_sync_systems().filter(|y: Seq<char>| sys.contains(y)),
{
    reveal_strlit("auto");
    reveal_strlit("none");
    reveal_strlit("disabled");
    reveal_strlit("off");
    reveal_strlit("*");
    reveal_strlit("all");
    if sys.len() == 0 {
        assert(sys =~= Seq::<Seq<char>>::empty());
        lemma_filter_empty(sorted_sync_systems());
        assert(trim("none"@) == "none"@ && lower("none"@) == "none"@) by {
            lemma_plain_word("none"@);
            lemma_trim_keeps("none"@);
        }
    } else {
        assert forall|i: int| 0 <= i < sys.len() implies system_word_ok(#[trigger] sys[i]) by {
            lemma_system_word_ok(sys[i]);
        }
        lemma_split_join(sys);
        let j = join_with(sys, ","@);
        assert(systems_text(sys) == j);
        assert(system_word_ok(sys[0]));
        assert(j[0] == sys[0][0] && j[1] == sys[0][1]) by {
            assert(j.subrange(0, sys[0].len() as int)[0] == j[0]);
            assert(j.subrange(0, sys[0].len() as int)[1] == j[1]);
        }
        assert(system_word_ok(sys[sys.len() - 1]));
        assert(system_char(sys.last()[sys.last().len() - 1]));
        lemma_trim_keeps(j);
        assert(lower(j) =~= j) by {
            assert forall|i: int| 0 <= i < j.len() implies lower(j)[i] == j[i] by {
                assert(system_char(j[i]) || j[i] == ',');
            }
        }
        assert(j != "auto"@ && j != "all"@ && j != "off"@ && j != "*"@);
        assert(j != "none"@) by { if j == "none"@ { assert(j[1] == 'o'); } }
        assert(j != "disabled"@) by { if j == "disabled"@ { assert(j[1] == 'i'); } }
        assert(system_tokens(j) =~= sys);
        assert forall|k: int| 0 <= k < sorted_sync_systems().len() implies (names_system(j, #[trigger] sorted_sync_systems()[k]) <==> sys.contains(sorted_sync_systems()[k])) by {
            let y = sorted_sync_systems()[k];
            if sys.contains(y) {
                let i = choose|i: int| 0 <= i < sys.len() && sys[i] == y;
                lemma_system_names_itself(y);
                assert(system_slug(system_tokens(j)[i]) == Some(y));
            }
            if names_system(j, y) {
                let i = choose|i: int| 0 <= i < system_tokens(j).len() && system_slug(#[trigger] system_tokens(j)[i]) == Some(y);
                lemma_system_names_itself(sys[i]);
                assert(sys[i] == y);
            }
        }
        lemma_named_filter(sorted_sync_systems(), j, sys);
    }
}

} // verus!

verus! {

// ---------------------------------------------------------------------------
// A base text of any number of lines
// ---------------------------------------------------------------------------

/// Lines joined by new lines after text `p` that ends a line.
proof fn lemma_lines_joined_after(p: Seq<char>, ls: Seq<Seq<char>>)
    requires
        lines_state(p).1 == Seq::<char>::empty(),
        ls.len() > 0,
        forall|i: int| 0 <= i < ls.len() ==> plain_line(#[trigger] ls[i]),
    ensures
        lines_state(p + join_with(ls, "\n"@) + "\n"@) == (lines_state(p).0 + ls, Seq::<char>::empty()),
    decreases ls.len(),
{
    reveal_strlit("\n");
    assert("\n"@ =~= seq!['\n']);
    if ls.len() == 1 {
        lemma_lines_state_line(p, ls[0]);
        assert(p + ls[0] + seq!['\n'] =~= p + join_with(ls, "\n"@) + "\n"@);
        assert(lines_state(p).0.push(ls[0]) =~= lines_state(p).0 + ls);
    } else {
        let d = ls.drop_last();
        assert forall|i: int| 0 <= i < d.len() implies plain_line(#[trigger] d[i]) by {
            assert(d[i] == ls[i]);
        }
        lemma_lines_joined_after(p, d);
        let q = p + join_with(d, "\n"@) + "\n"@;
        assert(plain_line(ls[ls.len() - 1]));
        lemma_lines_state_line(q, ls.last());
        assert(q + ls.last() + seq!['\n'] =~= p + join_with(ls, "\n"@) + "\n"@);
        assert((lines_state(p).0 + d).push(ls.last()) =~= lines_state(p).0 + ls);
    }
}

/// The lines after the base: for each source, a blank line and its section.
pub open spec fn tail_lines(s: Seq<Source>, ord: Seq<int>) -> Seq<Seq<char>>
    decreases ord.len(),
{
    if ord.len() == 0 {
        seq![]
    } else {
        tail_lines(s, ord.drop_last()) + seq![Seq::<char>::empty()] + source_block(s[ord.last()])
    }
}

proof fn lemma_tail_nonblank_base(base: Seq<char>, s: Seq<Source>, ord: Seq<int>)
    requires
        trim(base).len() > 0,
    ensures
        config_lines(base, s, ord) == seq![base] + tail_lines(s, ord),
    decreases ord.len(),
{
    if ord.len() == 0 {
        assert(seq![base] + Seq::<Seq<char>>::empty() =~= seq![base]);
    } else {
        lemma_tail_nonblank_base(base, s, ord.drop_last());
        assert(config_lines(base, s, ord) =~= seq![base] + tail_lines(s, ord));
    }
}

proof fn lemma_tail_blank_base(base: Seq<char>, s: Seq<Source>, ord: Seq<int>)
    requires
        trim(base).len() == 0,
        ord.len() > 0,
    ensures
        tail_lines(s, ord).len() > 0,
        tail_lines(s, ord)[0] == Seq::<char>::empty(),
        config_lines(base, s, ord) == tail_lines(s, ord).drop_first(),
    decreases ord.len(),
{
    let b = source_block(s[ord.last()]);
    assert(b.len() == 11);
    if ord.len() == 1 {
        assert(ord.drop_last().len() == 0);
        assert(config_lines(base, s, ord.drop_last()) =~= Seq::<Seq<char>>::empty());
        assert(tail_lines(s, ord.drop_last()) =~= Seq::<Seq<char>>::empty());
        assert(config_lines(base, s, ord) =~= tail_lines(s, ord).drop_first());
    } else {
        lemma_tail_blank_base(base, s, ord.drop_last());
        assert(config_lines(base, s, ord) =~= tail_lines(s, ord).drop_first());
    }
}

proof fn lemma_tail_sections(pre: Seq<Seq<char>>, s: Seq<Source>, ord: Seq<int>)
    requires
        sections_state(pre) == Ok::<(Seq<SectionView>, Option<SectionView>), nat>((seq![], None)),
        valid_order(s, ord),
        forall|i: int| 0 <= i < s.len() ==> storable(#[trigger] s[i]),
    ensures
        forall|i: int| 0 <= i < tail_lines(s, ord).len() ==> plain_line(#[trigger] tail_lines(s, ord)[i]),
        ord.len() == 0 ==> sections_state(pre + tail_lines(s, ord)) == Ok::<(Seq<SectionView>, Option<SectionView>), nat>((seq![], None)),
        ord.len() > 0 ==> sections_state(pre + tail_lines(s, ord)) == Ok::<(Seq<SectionView>, Option<SectionView>), nat>((
            sections_at(s, ord.drop_last()),
            Some(section_of(s[ord.last()])),
        )),
    decreases ord.len(),
{
    if ord.len() == 0 {
        assert(pre + tail_lines(s, ord) =~= pre);
    } else {
        let d = ord.drop_last();
        assert(valid_order(s, d)) by {
            assert forall|k: int| 0 <= k < d.len() implies 0 <= #[trigger] d[k] < s.len() by {
                assert(d[k] == ord[k]);
            }
        }
        lemma_tail_sections(pre, s, d);
        let prev = pre + tail_lines(s, d);
        lemma_step_blank(prev);
        let mid = prev.push(Seq::<char>::empty());
        let x = s[ord.last()];
        assert(0 <= ord[ord.len() - 1] < s.len());
        assert(storable(x));
        let (done, cur) = sections_state(mid)->Ok_0;
        lemma_block_sections(mid, done, cur, x);
        lemma_block_plain(x);
        assert(pre + tail_lines(s, ord) =~= mid + source_block(x));
        if d.len() == 0 {
            assert(close_section(done, cur) =~= sections_at(s, d));
        } else {
            assert(close_section(done, cur) =~= sections_at(s, ord.drop_last())) by {
                assert(d.drop_last().push(d.last()) =~= d);
            }
        }
        let t = tail_lines(s, ord);
        let td = tail_lines(s, d);
        assert(t == td + seq![Seq::<char>::empty()] + source_block(x));
        assert forall|i: int| 0 <= i < t.len() implies plain_line(#[trigger] t[i]) by {
            if i < td.len() {
                assert(t[i] == td[i]);
            } else if i > td.len() {
                assert(t[i] == source_block(x)[i - td.len() - 1]);
            }
        }
    }
}

/// Reading lines that start with a blank line reads as the lines without it,
/// where the reading succeeds.
proof fn lemma_leading_blank(x: Seq<Seq<char>>)
    requires
        sections_state(seq![Seq::<char>::empty()] + x) is Ok,
    ensures
        sections_state(x) == sections_state(seq![Seq::<char>::empty()] + x),
    decreases x.len(),
{
    let e = seq![Seq::<char>::empty()];
    if x.len() == 0 {
        assert(e + x =~= e);
        assert(e.drop_last() =~= Seq::<Seq<char>>::empty());
        lemma_trim_keeps(Seq::<char>::empty());
        assert(sections_state(Seq::<Seq<char>>::empty()) == Ok::<(Seq<SectionView>, Option<SectionView>), nat>((seq![], None)));
        assert(e.last() == Seq::<char>::empty());
        assert(is_skipped_line(trim(e.last())));
    } else {
        let d = x.drop_last();
        assert((e + x).drop_last() =~= e + d);
        assert((e + x).last() == x.last());
        if sections_state(e + d) is Err {
            assert(sections_state(e + x) is Err);
        }
        lemma_leading_blank(d);
    }
}

/// The lines of a base text that opens no source section.
pub open spec fn base_lines(base: Seq<char>) -> Seq<Seq<char>> {
    lines_state(base + "\n"@).0
}

/// A base text the sections leave alone: where it is not blank, its lines
/// open no source section.
pub open spec fn quiet_base_text(base: Seq<char>) -> bool {
    trim(base).len() > 0 ==> sections_state(base_lines(base)) == Ok::<(Seq<SectionView>, Option<SectionView>), nat>((seq![], None))
}

#[verifier::rlimit(60)]
proof fn lemma_text_sections(base: Seq<char>, s: Seq<Source>)
    requires
        quiet_base_text(base),
        s.len() > 0,
        forall|i: int| 0 <= i < s.len() ==> storable(#[trigger] s[i]),
        order_by_id(s, s.len()).len() == s.len(),
        forall|k: int| 0 <= k < order_by_id(s, s.len()).len() ==> 0 <= #[trigger] order_by_id(s, s.len())[k] < s.len(),
    ensures
        sections_state(lines(rendered_config(base, s))) == Ok::<(Seq<SectionView>, Option<SectionView>), nat>((
            sections_at(s, order_by_id(s, s.len()).drop_last()),
            Some(section_of(s[order_by_id(s, s.len()).last()])),
        )),
{
    reveal_strlit("\n");
    let ord = order_by_id(s, s.len());
    assert(valid_order(s, ord));
    let t = tail_lines(s, ord);
    let text = rendered_config(base, s);
    if trim(base).len() > 0 {
        lemma_tail_nonblank_base(base, s, ord);
        let p = base + "\n"@;
        assert(p.drop_last() =~= base);
        assert(p.last() == '\n');
        assert(lines_state(p).1 == Seq::<char>::empty());
        lemma_tail_sections(base_lines(base), s, ord);
        lemma_block_plain(s[ord.last()]);
        assert(t.len() > 0);
        lemma_lines_joined_after(p, t);
        assert(config_lines(base, s, ord) == seq![base] + t);
        assert(join_with(seq![base] + t, "\n"@) == base + "\n"@ + join_with(t, "\n"@)) by {
            lemma_join_front(base, t);
        }
        assert(text =~= p + join_with(t, "\n"@) + "\n"@);
        assert(lines(text) == base_lines(base) + t);
    } else {
        lemma_tail_blank_base(base, s, ord);
        assert(sections_state(Seq::<Seq<char>>::empty()) == Ok::<(Seq<SectionView>, Option<SectionView>), nat>((seq![], None)));
        lemma_tail_sections(Seq::<Seq<char>>::empty(), s, ord);
        assert(Seq::<Seq<char>>::empty() + t =~= t);
        let ls = t.drop_first();
        assert(t =~= seq![Seq::<char>::empty()] + ls);
        lemma_leading_blank(ls);
        lemma_config_plain_blank(t);
        lemma_lines_of_joined(ls);
    }
}

proof fn lemma_base_only_reads_nothing(base: Seq<char>, s: Seq<Source>)
    requires
        quiet_base_text(base),
        s.len() == 0,
    ensures
        source_sections(rendered_config(base, s)) == Ok::<Seq<SectionView>, nat>(seq![]),
{
    reveal_strlit("\n");
    let text = rendered_config(base, s);
    assert(order_by_id(s, 0) =~= Seq::<int>::empty());
    if trim(base).len() > 0 {
        assert(config_lines(base, s, seq![]) == seq![base]);
        assert(join_with(seq![base], "\n"@) == base);
        let p = base + "\n"@;
        assert(p.drop_last() =~= base);
        assert(text == p);
        assert(lines_state(p).1 == Seq::<char>::empty());
        assert(lines(text) == base_lines(base));
    } else {
        assert(config_lines(base, s, seq![]) == Seq::<Seq<char>>::empty());
        assert(text =~= seq!['\n']);
        assert(seq!['\n'].drop_last() =~= Seq::<char>::empty());
        assert(lines_state(Seq::<char>::empty()) == (Seq::<Seq<char>>::empty(), Seq::<char>::empty()));
        assert(strip_cr(Seq::<char>::empty()) == Seq::<char>::empty());
        assert(lines_state(seq!['\n']).0 =~= seq![Seq::<char>::empty()]);
        assert(lines_state(seq!['\n']).1 =~= Seq::<char>::empty());
        assert(lines(text) =~= seq![Seq::<char>::empty()]);
        let ls = seq![Seq::<char>::empty()];
        assert(ls.drop_last() =~= Seq::<Seq<char>>::empty());
        lemma_trim_keeps(Seq::<char>::empty());
        assert(sections_state(Seq::<Seq<char>>::empty()) == Ok::<(Seq<SectionView>, Option<SectionView>), nat>((seq![], None)));
        assert(ls.last() == Seq::<char>::empty());
        assert(is_skipped_line(trim(ls.last())));
        assert(sections_state(ls) == Ok::<(Seq<SectionView>, Option<SectionView>), nat>((seq![], None)));
    }
}

/// Sources written into the configuration file after any base text read
/// back as the same sources: the text reads as one section per source, each
/// source once, in ascending order of id, and the source each section
/// describes (as `load_source_store` returns it) has every field of the
/// source written, and the known systems it lists in the canonical order,
/// each once (none when it lists none). This holds where the base text opens
/// no source section, for sources whose ids are their own identifiers, whose
/// values hold no quotes or new lines, with one save and one ROM folder each
/// and only known systems.
pub proof fn law_rendered_store_reads_back(base: Seq<char>, s: Seq<Source>)
    requires
        quiet_base_text(base),
        forall|i: int| 0 <= i < s.len() ==> storable(#[trigger] s[i]) && s[i].save_roots@.len() == 1
            && s[i].rom_roots@.len() == 1 && known_systems(s[i].systems.deep_view()),
    ensures
        source_sections(rendered_config(base, s)) is Ok,
        ({
            let ord = order_by_id(s, s.len());
            let d = sections_with_save(source_sections(rendered_config(base, s))->Ok_0);
            &&& ord.len() == s.len()
            &&& forall|k: int| 0 <= k < ord.len() ==> 0 <= #[trigger] ord[k] < s.len()
            &&& ord.to_multiset() == Seq::new(s.len(), |k: int| k).to_multiset()
            &&& ids_ascending(s, ord)
            &&& d.len() == s.len()
            &&& forall|i: int, r: Source| 0 <= i < d.len() && #[trigger] source_describes(r, d[i]) ==> read_back_as(r, s[ord[i]])
                && r.systems.deep_view() == sorted_sync_systems().filter(|y: Seq<char>| s[ord[i]].systems.deep_view().contains(y))
        }),
{
    reveal_strlit("\n");
    let n = s.len();
    lemma_order_by_id(s, n);
    lemma_order_sorted(s, n);
    lemma_order_counts(s, n);
    let ord = order_by_id(s, n);
    if n == 0 {
        lemma_base_only_reads_nothing(base, s);
        return;
    }
    assert(forall|i: int| 0 <= i < s.len() ==> storable(#[trigger] s[i]));
    lemma_text_sections(base, s);
    let secs = sections_at(s, ord);
    let text = rendered_config(base, s);
    assert(close_section(sections_at(s, ord.drop_last()), Some(section_of(s[ord.last()]))) =~= secs);
    assert(source_sections(text) == Ok::<Seq<SectionView>, nat>(secs));
    assert forall|i: int| 0 <= i < secs.len() implies lookup((#[trigger] secs[i]).values, "SAVE_PATH"@) is Some by {
        let x = s[ord[i]];
        lemma_read_values(x);
        reveal_strlit("SAVE_PATH");
        lemma_lookup_some(block_values(x), "SAVE_PATH"@, 3);
    }
    lemma_all_with_save(secs);
    assert forall|i: int, r: Source| 0 <= i < secs.len() && #[trigger] source_describes(r, secs[i]) implies read_back_as(r, s[ord[i]])
        && r.systems.deep_view() == sorted_sync_systems().filter(|y: Seq<char>| s[ord[i]].systems.deep_view().contains(y)) by {
        let x = s[ord[i]];
        lemma_systems_read_back(x.systems.deep_view(), x.kind);
        lemma_read_values(x);
        assert(secs[i] == SectionView { id: x.id@, values: block_values(x) });
        law_source_settings_read_back(x, r);
    }
}

proof fn lemma_config_plain_blank(t: Seq<Seq<char>>)
    requires
        t.len() > 1,
        forall|i: int| 0 <= i < t.len() ==> plain_line(#[trigger] t[i]),
    ensures
        t.drop_first().len() > 0,
        forall|i: int| 0 <= i < t.drop_first().len() ==> plain_line(#[trigger] t.drop_first()[i]),
{
    assert forall|i: int| 0 <= i < t.drop_first().len() implies plain_line(#[trigger] t.drop_first()[i]) by {
        assert(t.drop_first()[i] == t[i + 1]);
    }
}

proof fn lemma_join_front(a: Seq<char>, t: Seq<Seq<char>>)
    requires
        t.len() > 0,
    ensures
        join_with(seq![a] + t, "\n"@) == a + "\n"@ + join_with(t, "\n"@),
    decreases t.len(),
{
    let l = seq![a] + t;
    let nl = "\n"@;
    assert(join_with(seq![a], nl) == a);
    if t.len() == 1 {
        assert(l.drop_last() =~= seq![a]);
        assert(l.last() == t[0]);
        assert(join_with(t, nl) == t[0]);
        assert(join_with(l, nl) == join_with(l.drop_last(), nl) + nl + l.last());
    } else {
        lemma_join_front(a, t.drop_last());
        assert(l.drop_last() =~= seq![a] + t.drop_last());
        assert(l.last() == t.last());
        assert(join_with(l, nl) == join_with(l.drop_last(), nl) + nl + l.last());
        assert(join_with(t, nl) == join_with(t.drop_last(), nl) + nl + t.last());
        assert(a + nl + join_with(t.drop_last(), nl) + nl + t.last() =~= a + nl + (join_with(t.drop_last(), nl) + nl + t.last()));
    }
}

} // verus!

verus! {

proof fn lemma_slug_nes()
    ensures
        system_slug("nes"@) == Some("nes"@),
{
    reveal_strlit("32x");
    reveal_strlit("aes");
    reveal_strlit("dc");
    reveal_strlit("dolphin");
    reveal_strlit("dreamcast");
    reveal_strlit("ds");
    reveal_strlit("famicom");
    reveal_strlit("game-gear");
    reveal_strlit("gameboy");
    reveal_strlit("gameboyadvance");
    reveal_strlit("gameboycolor");
    reveal_strlit("gamegear");
    reveal_strlit("gb");
    reveal_strlit("gba");
    reveal_strlit("gbc");
    reveal_strlit("genesis");
    reveal_strlit("gg");
    reveal_strlit("master-system");
    reveal_strlit("mastersystem");
    reveal_strlit("md");
    reveal_strlit("megacd");
    reveal_strlit("megadrive");
    reveal_strlit("megadrive32x");
    reveal_strlit("megadrivecd");
    reveal_strlit("mvs");
    reveal_strlit("n64");
    reveal_strlit("nds");
    reveal_strlit("neogeo");
    reveal_strlit("nes");
    reveal_strlit("nintendo64");
    reveal_strlit("nintendods");
    reveal_strlit("nintendoentertainmentsystem");
    reveal_strlit("nintendowii");
    reveal_strlit("playstation");
    reveal_strlit("playstation1");
    reveal_strlit("playstation2");
    reveal_strlit("playstation3");
    reveal_strlit("playstation4");
    reveal_strlit("playstation5");
    reveal_strlit("playstationportable");
    reveal_strlit("playstationvita");
    reveal_strlit("ps1");
    reveal_strlit("ps2");
    reveal_strlit("ps3");
    reveal_strlit("ps4");
    reveal_strlit("ps5");
    reveal_strlit("psp");
    reveal_strlit("psvita");
    reveal_strlit("psx");
    reveal_strlit("saturn");
    reveal_strlit("sega-32x");
    reveal_strlit("sega-cd");
    reveal_strlit("sega32x");
    reveal_strlit("segacd");
    reveal_strlit("segasaturn");
    reveal_strlit("sfc");
    reveal_strlit("sms");
    reveal_strlit("snes");
    reveal_strlit("superfamicom");
    reveal_strlit("supernintendo");
    reveal_strlit("vita");
    reveal_strlit("wii");
    reveal_with_fuel(alnum_lower, 14);
    assert(alnum_lower("nes"@) =~= "nes"@);
}

proof fn lemma_slug_snes()
    ensures
        system_slug("snes"@) == Some("snes"@),
{
    reveal_strlit("32x");
    reveal_strlit("aes");
    reveal_strlit("dc");
    reveal_strlit("dolphin");
    reveal_strlit("dreamcast");
    reveal_strlit("ds");
    reveal_strlit("famicom");
    reveal_strlit("game-gear");
    reveal_strlit("gameboy");
    reveal_strlit("gameboyadvance");
    reveal_strlit("gameboycolor");
    reveal_strlit("gamegear");
    reveal_strlit("gb");
    reveal_strlit("gba");
    reveal_strlit("gbc");
    reveal_strlit("genesis");
    reveal_strlit("gg");
    reveal_strlit("master-system");
    reveal_strlit("mastersystem");
    reveal_strlit("md");
    reveal_strlit("megacd");
    reveal_strlit("megadrive");
    reveal_strlit("megadrive32x");
    reveal_strlit("megadrivecd");
    reveal_strlit("mvs");
    reveal_strlit("n64");
    reveal_strlit("nds");
    reveal_strlit("neogeo");
    reveal_strlit("nes");
    reveal_strlit("nintendo64");
    reveal_strlit("nintendods");
    reveal_strlit("nintendoentertainmentsystem");
    reveal_strlit("nintendowii");
    reveal_strlit("playstation");
    reveal_strlit("playstation1");
    reveal_strlit("playstation2");
    reveal_strlit("playstation3");
    reveal_strlit("playstation4");
    reveal_strlit("playstation5");
    reveal_strlit("playstationportable");
    reveal_strlit("playstationvita");
    reveal_strlit("ps1");
    reveal_strlit("ps2");
    reveal_strlit("ps3");
    reveal_strlit("ps4");
    reveal_strlit("ps5");
    reveal_strlit("psp");
    reveal_strlit("psvita");
    reveal_strlit("psx");
    reveal_strlit("saturn");
    reveal_strlit("sega-32x");
    reveal_strlit("sega-cd");
    reveal_strlit("sega32x");
    reveal_strlit("segacd");
    reveal_strlit("segasaturn");
    reveal_strlit("sfc");
    reveal_strlit("sms");
    reveal_strlit("snes");
    reveal_strlit("superfamicom");
    reveal_strlit("supernintendo");
    reveal_strlit("vita");
    reveal_strlit("wii");
    reveal_with_fuel(alnum_lower, 14);
    assert(alnum_lower("snes"@) =~= "snes"@);
}

proof fn lemma_slug_gameboy()
    ensures
        system_slug("gameboy"@) == Some("gameboy"@),
{
    reveal_strlit("32x");
    reveal_strlit("aes");
    reveal_strlit("dc");
    reveal_strlit("dolphin");
    reveal_strlit("dreamcast");
    reveal_strlit("ds");
    reveal_strlit("famicom");
    reveal_strlit("game-gear");
    reveal_strlit("gameboy");
    reveal_strlit("gameboyadvance");
    reveal_strlit("gameboycolor");
    reveal_strlit("gamegear");
    reveal_strlit("gb");
    reveal_strlit("gba");
    reveal_strlit("gbc");
    reveal_strlit("genesis");
    reveal_strlit("gg");
    reveal_strlit("master-system");
    reveal_strlit("mastersystem");
    reveal_strlit("md");
    reveal_strlit("megacd");
    reveal_strlit("megadrive");
    reveal_strlit("megadrive32x");
    reveal_strlit("megadrivecd");
    reveal_strlit("mvs");
    reveal_strlit("n64");
    reveal_strlit("nds");
    reveal_strlit("neogeo");
    reveal_strlit("nes");
    reveal_strlit("nintendo64");
    reveal_strlit("nintendods");
    reveal_strlit("nintendoentertainmentsystem");
    reveal_strlit("nintendowii");
    reveal_strlit("playstation");
    reveal_strlit("playstation1");
    reveal_strlit("playstation2");
    reveal_strlit("playstation3");
    reveal_strlit("playstation4");
    reveal_strlit("playstation5");
    reveal_strlit("playstationportable");
    reveal_strlit("playstationvita");
    reveal_strlit("ps1");
    reveal_strlit("ps2");
    reveal_strlit("ps3");
    reveal_strlit("ps4");
    reveal_strlit("ps5");
    reveal_strlit("psp");
    reveal_strlit("psvita");
    reveal_strlit("psx");
    reveal_strlit("saturn");
    reveal_strlit("sega-32x");
    reveal_strlit("sega-cd");
    reveal_strlit("sega32x");
    reveal_strlit("segacd");
    reveal_strlit("segasaturn");
    reveal_strlit("sfc");
    reveal_strlit("sms");
    reveal_strlit("snes");
    reveal_strlit("superfamicom");
    reveal_strlit("supernintendo");
    reveal_strlit("vita");
    reveal_strlit("wii");
    reveal_with_fuel(alnum_lower, 14);
    assert(alnum_lower("gameboy"@) =~= "gameboy"@);
}

proof fn lemma_slug_gba()
    ensures
        system_slug("gba"@) == Some("gba"@),
{
    reveal_strlit("32x");
    reveal_strlit("aes");
    reveal_strlit("dc");
    reveal_strlit("dolphin");
    reveal_strlit("dreamcast");
    reveal_strlit("ds");
    reveal_strlit("famicom");
    reveal_strlit("game-gear");
    reveal_strlit("gameboy");
    reveal_strlit("gameboyadvance");
    reveal_strlit("gameboycolor");
    reveal_strlit("gamegear");
    reveal_strlit("gb");
    reveal_strlit("gba");
    reveal_strlit("gbc");
    reveal_strlit("genesis");
    reveal_strlit("gg");
    reveal_strlit("master-system");
    reveal_strlit("mastersystem");
    reveal_strlit("md");
    reveal_strlit("megacd");
    reveal_strlit("megadrive");
    reveal_strlit("megadrive32x");
    reveal_strlit("megadrivecd");
    reveal_strlit("mvs");
    reveal_strlit("n64");
    reveal_strlit("nds");
    reveal_strlit("neogeo");
    reveal_strlit("nes");
    reveal_strlit("nintendo64");
    reveal_strlit("nintendods");
    reveal_strlit("nintendoentertainmentsystem");
    reveal_strlit("nintendowii");
    reveal_strlit("playstation");
    reveal_strlit("playstation1");
    reveal_strlit("playstation2");
    reveal_strlit("playstation3");
    reveal_strlit("playstation4");
    reveal_strlit("playstation5");
    reveal_strlit("playstationportable");
    reveal_strlit("playstationvita");
    reveal_strlit("ps1");
    reveal_strlit("ps2");
    reveal_strlit("ps3");
    reveal_strlit("ps4");
    reveal_strlit("ps5");
    reveal_strlit("psp");
    reveal_strlit("psvita");
    reveal_strlit("psx");
    reveal_strlit("saturn");
    reveal_strlit("sega-32x");
    reveal_strlit("sega-cd");
    reveal_strlit("sega32x");
    reveal_strlit("segacd");
    reveal_strlit("segasaturn");
    reveal_strlit("sfc");
    reveal_strlit("sms");
    reveal_strlit("snes");
    reveal_strlit("superfamicom");
    reveal_strlit("supernintendo");
    reveal_strlit("vita");
    reveal_strlit("wii");
    reveal_with_fuel(alnum_lower, 14);
    assert(alnum_lower("gba"@) =~= "gba"@);
}

proof fn lemma_slug_n64()
    ensures
        system_slug("n64"@) == Some("n64"@),
{
    reveal_strlit("32x");
    reveal_strlit("aes");
    reveal_strlit("dc");
    reveal_strlit("dolphin");
    reveal_strlit("dreamcast");
    reveal_strlit("ds");
    reveal_strlit("famicom");
    reveal_strlit("game-gear");
    reveal_strlit("gameboy");
    reveal_strlit("gameboyadvance");
    reveal_strlit("gameboycolor");
    reveal_strlit("gamegear");
    reveal_strlit("gb");
    reveal_strlit("gba");
    reveal_strlit("gbc");
    reveal_strlit("genesis");
    reveal_strlit("gg");
    reveal_strlit("master-system");
    reveal_strlit("mastersystem");
    reveal_strlit("md");
    reveal_strlit("megacd");
    reveal_strlit("megadrive");
    reveal_strlit("megadrive32x");
    reveal_strlit("megadrivecd");
    reveal_strlit("mvs");
    reveal_strlit("n64");
    reveal_strlit("nds");
    reveal_strlit("neogeo");
    reveal_strlit("nes");
    reveal_strlit("nintendo64");
    reveal_strlit("nintendods");
    reveal_strlit("nintendoentertainmentsystem");
    reveal_strlit("nintendowii");
    reveal_strlit("playstation");
    reveal_strlit("playstation1");
    reveal_strlit("playstation2");
    reveal_strlit("playstation3");
    reveal_strlit("playstation4");
    reveal_strlit("playstation5");
    reveal_strlit("playstationportable");
    reveal_strlit("playstationvita");
    reveal_strlit("ps1");
    reveal_strlit("ps2");
    reveal_strlit("ps3");
    reveal_strlit("ps4");
    reveal_strlit("ps5");
    reveal_strlit("psp");
    reveal_strlit("psvita");
    reveal_strlit("psx");
    reveal_strlit("saturn");
    reveal_strlit("sega-32x");
    reveal_strlit("sega-cd");
    reveal_strlit("sega32x");
    reveal_strlit("segacd");
    reveal_strlit("segasaturn");
    reveal_strlit("sfc");
    reveal_strlit("sms");
    reveal_strlit("snes");
    reveal_strlit("superfamicom");
    reveal_strlit("supernintendo");
    reveal_strlit("vita");
    reveal_strlit("wii");
    reveal_with_fuel(alnum_lower, 14);
    assert(alnum_lower("n64"@) =~= "n64"@);
}

proof fn lemma_slug_nds()
    ensures
        system_slug("nds"@) == Some("nds"@),
{
    reveal_strlit("32x");
    reveal_strlit("aes");
    reveal_strlit("dc");
    reveal_strlit("dolphin");
    reveal_strlit("dreamcast");
    reveal_strlit("ds");
    reveal_strlit("famicom");
    reveal_strlit("game-gear");
    reveal_strlit("gameboy");
    reveal_strlit("gameboyadvance");
    reveal_strlit("gameboycolor");
    reveal_strlit("gamegear");
    reveal_strlit("gb");
    reveal_strlit("gba");
    reveal_strlit("gbc");
    reveal_strlit("genesis");
    reveal_strlit("gg");
    reveal_strlit("master-system");
    reveal_strlit("mastersystem");
    reveal_strlit("md");
    reveal_strlit("megacd");
    reveal_strlit("megadrive");
    reveal_strlit("megadrive32x");
    reveal_strlit("megadrivecd");
    reveal_strlit("mvs");
    reveal_strlit("n64");
    reveal_strlit("nds");
    reveal_strlit("neogeo");
    reveal_strlit("nes");
    reveal_strlit("nintendo64");
    reveal_strlit("nintendods");
    reveal_strlit("nintendoentertainmentsystem");
    reveal_strlit("nintendowii");
    reveal_strlit("playstation");
    reveal_strlit("playstation1");
    reveal_strlit("playstation2");
    reveal_strlit("playstation3");
    reveal_strlit("playstation4");
    reveal_strlit("playstation5");
    reveal_strlit("playstationportable");
    reveal_strlit("playstationvita");
    reveal_strlit("ps1");
    reveal_strlit("ps2");
    reveal_strlit("ps3");
    reveal_strlit("ps4");
    reveal_strlit("ps5");
    reveal_strlit("psp");
    reveal_strlit("psvita");
    reveal_strlit("psx");
    reveal_strlit("saturn");
    reveal_strlit("sega-32x");
    reveal_strlit("sega-cd");
    reveal_strlit("sega32x");
    reveal_strlit("segacd");
    reveal_strlit("segasaturn");
    reveal_strlit("sfc");
    reveal_strlit("sms");
    reveal_strlit("snes");
    reveal_strlit("superfamicom");
    reveal_strlit("supernintendo");
    reveal_strlit("vita");
    reveal_strlit("wii");
    reveal_with_fuel(alnum_lower, 14);
    assert(alnum_lower("nds"@) =~= "nds"@);
}

proof fn lemma_slug_genesis()
    ensures
        system_slug("genesis"@) == Some("genesis"@),
{
    reveal_strlit("32x");
    reveal_strlit("aes");
    reveal_strlit("dc");
    reveal_strlit("dolphin");
    reveal_strlit("dreamcast");
    reveal_strlit("ds");
    reveal_strlit("famicom");
    reveal_strlit("game-gear");
    reveal_strlit("gameboy");
    reveal_strlit("gameboyadvance");
    reveal_strlit("gameboycolor");
    reveal_strlit("gamegear");
    reveal_strlit("gb");
    reveal_strlit("gba");
    reveal_strlit("gbc");
    reveal_strlit("genesis");
    reveal_strlit("gg");
    reveal_strlit("master-system");
    reveal_strlit("mastersystem");
    reveal_strlit("md");
    reveal_strlit("megacd");
    reveal_strlit("megadrive");
    reveal_strlit("megadrive32x");
    reveal_strlit("megadrivecd");
    reveal_strlit("mvs");
    reveal_strlit("n64");
    reveal_strlit("nds");
    reveal_strlit("neogeo");
    reveal_strlit("nes");
    reveal_strlit("nintendo64");
    reveal_strlit("nintendods");
    reveal_strlit("nintendoentertainmentsystem");
    reveal_strlit("nintendowii");
    reveal_strlit("playstation");
    reveal_strlit("playstation1");
    reveal_strlit("playstation2");
    reveal_strlit("playstation3");
    reveal_strlit("playstation4");
    reveal_strlit("playstation5");
    reveal_strlit("playstationportable");
    reveal_strlit("playstationvita");
    reveal_strlit("ps1");
    reveal_strlit("ps2");
    reveal_strlit("ps3");
    reveal_strlit("ps4");
    reveal_strlit("ps5");
    reveal_strlit("psp");
    reveal_strlit("psvita");
    reveal_strlit("psx");
    reveal_strlit("saturn");
    reveal_strlit("sega-32x");
    reveal_strlit("sega-cd");
    reveal_strlit("sega32x");
    reveal_strlit("segacd");
    reveal_strlit("segasaturn");
    reveal_strlit("sfc");
    reveal_strlit("sms");
    reveal_strlit("snes");
    reveal_strlit("superfamicom");
    reveal_strlit("supernintendo");
    reveal_strlit("vita");
    reveal_strlit("wii");
    reveal_with_fuel(alnum_lower, 14);
    assert(alnum_lower("genesis"@) =~= "genesis"@);
}

proof fn lemma_slug_master_system()
    ensures
        system_slug("master-system"@) == Some("master-system"@),
{
    reveal_strlit("32x");
    reveal_strlit("aes");
    reveal_strlit("dc");
    reveal_strlit("dolphin");
    reveal_strlit("dreamcast");
    reveal_strlit("ds");
    reveal_strlit("famicom");
    reveal_strlit("game-gear");
    reveal_strlit("gameboy");
    reveal_strlit("gameboyadvance");
    reveal_strlit("gameboycolor");
    reveal_strlit("gamegear");
    reveal_strlit("gb");
    reveal_strlit("gba");
    reveal_strlit("gbc");
    reveal_strlit("genesis");
    reveal_strlit("gg");
    reveal_strlit("master-system");
    reveal_strlit("mastersystem");
    reveal_strlit("md");
    reveal_strlit("megacd");
    reveal_strlit("megadrive");
    reveal_strlit("megadrive32x");
    reveal_strlit("megadrivecd");
    reveal_strlit("mvs");
    reveal_strlit("n64");
    reveal_strlit("nds");
    reveal_strlit("neogeo");
    reveal_strlit("nes");
    reveal_strlit("nintendo64");
    reveal_strlit("nintendods");
    reveal_strlit("nintendoentertainmentsystem");
    reveal_strlit("nintendowii");
    reveal_strlit("playstation");
    reveal_strlit("playstation1");
    reveal_strlit("playstation2");
    reveal_strlit("playstation3");
    reveal_strlit("playstation4");
    reveal_strlit("playstation5");
    reveal_strlit("playstationportable");
    reveal_strlit("playstationvita");
    reveal_strlit("ps1");
    reveal_strlit("ps2");
    reveal_strlit("ps3");
    reveal_strlit("ps4");
    reveal_strlit("ps5");
    reveal_strlit("psp");
    reveal_strlit("psvita");
    reveal_strlit("psx");
    reveal_strlit("saturn");
    reveal_strlit("sega-32x");
    reveal_strlit("sega-cd");
    reveal_strlit("sega32x");
    reveal_strlit("segacd");
    reveal_strlit("segasaturn");
    reveal_strlit("sfc");
    reveal_strlit("sms");
    reveal_strlit("snes");
    reveal_strlit("superfamicom");
    reveal_strlit("supernintendo");
    reveal_strlit("vita");
    reveal_strlit("wii");
    reveal_with_fuel(alnum_lower, 14);
    assert(alnum_lower("master-system"@) =~= "mastersystem"@);
    assert("mastersystem"@ != "superfamicom"@) by { assert("mastersystem"@[0] != "superfamicom"@[0]); }
    assert("mastersystem"@ != "gameboycolor"@) by { assert("mastersystem"@[0] != "gameboycolor"@[0]); }
}

proof fn lemma_slug_game_gear()
    ensures
        system_slug("game-gear"@) == Some("game-gear"@),
{
    reveal_strlit("32x");
    reveal_strlit("aes");
    reveal_strlit("dc");
    reveal_strlit("dolphin");
    reveal_strlit("dreamcast");
    reveal_strlit("ds");
    reveal_strlit("famicom");
    reveal_strlit("game-gear");
    reveal_strlit("gameboy");
    reveal_strlit("gameboyadvance");
    reveal_strlit("gameboycolor");
    reveal_strlit("gamegear");
    reveal_strlit("gb");
    reveal_strlit("gba");
    reveal_strlit("gbc");
    reveal_strlit("genesis");
    reveal_strlit("gg");
    reveal_strlit("master-system");
    reveal_strlit("mastersystem");
    reveal_strlit("md");
    reveal_strlit("megacd");
    reveal_strlit("megadrive");
    reveal_strlit("megadrive32x");
    reveal_strlit("megadrivecd");
    reveal_strlit("mvs");
    reveal_strlit("n64");
    reveal_strlit("nds");
    reveal_strlit("neogeo");
    reveal_strlit("nes");
    reveal_strlit("nintendo64");
    reveal_strlit("nintendods");
    reveal_strlit("nintendoentertainmentsystem");
    reveal_strlit("nintendowii");
    reveal_strlit("playstation");
    reveal_strlit("playstation1");
    reveal_strlit("playstation2");
    reveal_strlit("playstation3");
    reveal_strlit("playstation4");
    reveal_strlit("playstation5");
    reveal_strlit("playstationportable");
    reveal_strlit("playstationvita");
    reveal_strlit("ps1");
    reveal_strlit("ps2");
    reveal_strlit("ps3");
    reveal_strlit("ps4");
    reveal_strlit("ps5");
    reveal_strlit("psp");
    reveal_strlit("psvita");
    reveal_strlit("psx");
    reveal_strlit("saturn");
    reveal_strlit("sega-32x");
    reveal_strlit("sega-cd");
    reveal_strlit("sega32x");
    reveal_strlit("segacd");
    reveal_strlit("segasaturn");
    reveal_strlit("sfc");
    reveal_strlit("sms");
    reveal_strlit("snes");
    reveal_strlit("superfamicom");
    reveal_strlit("supernintendo");
    reveal_strlit("vita");
    reveal_strlit("wii");
    reveal_with_fuel(alnum_lower, 14);
    assert(alnum_lower("game-gear"@) =~= "gamegear"@);
}

proof fn lemma_slug_sega_cd()
    ensures
        system_slug("sega-cd"@) == Some("sega-cd"@),
{
    reveal_strlit("32x");
    reveal_strlit("aes");
    reveal_strlit("dc");
    reveal_strlit("dolphin");
    reveal_strlit("dreamcast");
    reveal_strlit("ds");
    reveal_strlit("famicom");
    reveal_strlit("game-gear");
    reveal_strlit("gameboy");
    reveal_strlit("gameboyadvance");
    reveal_strlit("gameboycolor");
    reveal_strlit("gamegear");
    reveal_strlit("gb");
    reveal_strlit("gba");
    reveal_strlit("gbc");
    reveal_strlit("genesis");
    reveal_strlit("gg");
    reveal_strlit("master-system");
    reveal_strlit("mastersystem");
    reveal_strlit("md");
    reveal_strlit("megacd");
    reveal_strlit("megadrive");
    reveal_strlit("megadrive32x");
    reveal_strlit("megadrivecd");
    reveal_strlit("mvs");
    reveal_strlit("n64");
    reveal_strlit("nds");
    reveal_strlit("neogeo");
    reveal_strlit("nes");
    reveal_strlit("nintendo64");
    reveal_strlit("nintendods");
    reveal_strlit("nintendoentertainmentsystem");
    reveal_strlit("nintendowii");
    reveal_strlit("playstation");
    reveal_strlit("playstation1");
    reveal_strlit("playstation2");
    reveal_strlit("playstation3");
    reveal_strlit("playstation4");
    reveal_strlit("playstation5");
    reveal_strlit("playstationportable");
    reveal_strlit("playstationvita");
    reveal_strlit("ps1");
    reveal_strlit("ps2");
    reveal_strlit("ps3");
    reveal_strlit("ps4");
    reveal_strlit("ps5");
    reveal_strlit("psp");
    reveal_strlit("psvita");
    reveal_strlit("psx");
    reveal_strlit("saturn");
    reveal_strlit("sega-32x");
    reveal_strlit("sega-cd");
    reveal_strlit("sega32x");
    reveal_strlit("segacd");
    reveal_strlit("segasaturn");
    reveal_strlit("sfc");
    reveal_strlit("sms");
    reveal_strlit("snes");
    reveal_strlit("superfamicom");
    reveal_strlit("supernintendo");
    reveal_strlit("vita");
    reveal_strlit("wii");
    reveal_with_fuel(alnum_lower, 14);
    assert(alnum_lower("sega-cd"@) =~= "segacd"@);
}

proof fn lemma_slug_sega_32x()
    ensures
        system_slug("sega-32x"@) == Some("sega-32x"@),
{
    reveal_strlit("32x");
    reveal_strlit("aes");
    reveal_strlit("dc");
    reveal_strlit("dolphin");
    reveal_strlit("dreamcast");
    reveal_strlit("ds");
    reveal_strlit("famicom");
    reveal_strlit("game-gear");
    reveal_strlit("gameboy");
    reveal_strlit("gameboyadvance");
    reveal_strlit("gameboycolor");
    reveal_strlit("gamegear");
    reveal_strlit("gb");
    reveal_strlit("gba");
    reveal_strlit("gbc");
    reveal_strlit("genesis");
    reveal_strlit("gg");
    reveal_strlit("master-system");
    reveal_strlit("mastersystem");
    reveal_strlit("md");
    reveal_strlit("megacd");
    reveal_strlit("megadrive");
    reveal_strlit("megadrive32x");
    reveal_strlit("megadrivecd");
    reveal_strlit("mvs");
    reveal_strlit("n64");
    reveal_strlit("nds");
    reveal_strlit("neogeo");
    reveal_strlit("nes");
    reveal_strlit("nintendo64");
    reveal_strlit("nintendods");
    reveal_strlit("nintendoentertainmentsystem");
    reveal_strlit("nintendowii");
    reveal_strlit("playstation");
    reveal_strlit("playstation1");
    reveal_strlit("playstation2");
    reveal_strlit("playstation3");
    reveal_strlit("playstation4");
    reveal_strlit("playstation5");
    reveal_strlit("playstationportable");
    reveal_strlit("playstationvita");
    reveal_strlit("ps1");
    reveal_strlit("ps2");
    reveal_strlit("ps3");
    reveal_strlit("ps4");
    reveal_strlit("ps5");
    reveal_strlit("psp");
    reveal_strlit("psvita");
    reveal_strlit("psx");
    reveal_strlit("saturn");
    reveal_strlit("sega-32x");
    reveal_strlit("sega-cd");
    reveal_strlit("sega32x");
    reveal_strlit("segacd");
    reveal_strlit("segasaturn");
    reveal_strlit("sfc");
    reveal_strlit("sms");
    reveal_strlit("snes");
    reveal_strlit("superfamicom");
    reveal_strlit("supernintendo");
    reveal_strlit("vita");
    reveal_strlit("wii");
    reveal_with_fuel(alnum_lower, 14);
    assert(alnum_lower("sega-32x"@) =~= "sega32x"@);
    assert("sega32x"@ != "famicom"@) by { assert("sega32x"@[0] != "famicom"@[0]); }
    assert("sega32x"@ != "gameboy"@) by { assert("sega32x"@[0] != "gameboy"@[0]); }
    assert("sega32x"@ != "genesis"@) by { assert("sega32x"@[0] != "genesis"@[0]); }
}

proof fn lemma_slug_saturn()
    ensures
        system_slug("saturn"@) == Some("saturn"@),
{
    reveal_strlit("32x");
    reveal_strlit("aes");
    reveal_strlit("dc");
    reveal_strlit("dolphin");
    reveal_strlit("dreamcast");
    reveal_strlit("ds");
    reveal_strlit("famicom");
    reveal_strlit("game-gear");
    reveal_strlit("gameboy");
    reveal_strlit("gameboyadvance");
    reveal_strlit("gameboycolor");
    reveal_strlit("gamegear");
    reveal_strlit("gb");
    reveal_strlit("gba");
    reveal_strlit("gbc");
    reveal_strlit("genesis");
    reveal_strlit("gg");
    reveal_strlit("master-system");
    reveal_strlit("mastersystem");
    reveal_strlit("md");
    reveal_strlit("megacd");
    reveal_strlit("megadrive");
    reveal_strlit("megadrive32x");
    reveal_strlit("megadrivecd");
    reveal_strlit("mvs");
    reveal_strlit("n64");
    reveal_strlit("nds");
    reveal_strlit("neogeo");
    reveal_strlit("nes");
    reveal_strlit("nintendo64");
    reveal_strlit("nintendods");
    reveal_strlit("nintendoentertainmentsystem");
    reveal_strlit("nintendowii");
    reveal_strlit("playstation");
    reveal_strlit("playstation1");
    reveal_strlit("playstation2");
    reveal_strlit("playstation3");
    reveal_strlit("playstation4");
    reveal_strlit("playstation5");
    reveal_strlit("playstationportable");
    reveal_strlit("playstationvita");
    reveal_strlit("ps1");
    reveal_strlit("ps2");
    reveal_strlit("ps3");
    reveal_strlit("ps4");
    reveal_strlit("ps5");
    reveal_strlit("psp");
    reveal_strlit("psvita");
    reveal_strlit("psx");
    reveal_strlit("saturn");
    reveal_strlit("sega-32x");
    reveal_strlit("sega-cd");
    reveal_strlit("sega32x");
    reveal_strlit("segacd");
    reveal_strlit("segasaturn");
    reveal_strlit("sfc");
    reveal_strlit("sms");
    reveal_strlit("snes");
    reveal_strlit("superfamicom");
    reveal_strlit("supernintendo");
    reveal_strlit("vita");
    reveal_strlit("wii");
    reveal_with_fuel(alnum_lower, 14);
    assert(alnum_lower("saturn"@) =~= "saturn"@);
}

proof fn lemma_slug_dreamcast()
    ensures
        system_slug("dreamcast"@) == Some("dreamcast"@),
{
    reveal_strlit("32x");
    reveal_strlit("aes");
    reveal_strlit("dc");
    reveal_strlit("dolphin");
    reveal_strlit("dreamcast");
    reveal_strlit("ds");
    reveal_strlit("famicom");
    reveal_strlit("game-gear");
    reveal_strlit("gameboy");
    reveal_strlit("gameboyadvance");
    reveal_strlit("gameboycolor");
    reveal_strlit("gamegear");
    reveal_strlit("gb");
    reveal_strlit("gba");
    reveal_strlit("gbc");
    reveal_strlit("genesis");
    reveal_strlit("gg");
    reveal_strlit("master-system");
    reveal_strlit("mastersystem");
    reveal_strlit("md");
    reveal_strlit("megacd");
    reveal_strlit("megadrive");
    reveal_strlit("megadrive32x");
    reveal_strlit("megadrivecd");
    reveal_strlit("mvs");
    reveal_strlit("n64");
    reveal_strlit("nds");
    reveal_strlit("neogeo");
    reveal_strlit("nes");
    reveal_strlit("nintendo64");
    reveal_strlit("nintendods");
    reveal_strlit("nintendoentertainmentsystem");
    reveal_strlit("nintendowii");
    reveal_strlit("playstation");
    reveal_strlit("playstation1");
    reveal_strlit("playstation2");
    reveal_strlit("playstation3");
    reveal_strlit("playstation4");
    reveal_strlit("playstation5");
    reveal_strlit("playstationportable");
    reveal_strlit("playstationvita");
    reveal_strlit("ps1");
    reveal_strlit("ps2");
    reveal_strlit("ps3");
    reveal_strlit("ps4");
    reveal_strlit("ps5");
    reveal_strlit("psp");
    reveal_strlit("psvita");
    reveal_strlit("psx");
    reveal_strlit("saturn");
    reveal_strlit("sega-32x");
    reveal_strlit("sega-cd");
    reveal_strlit("sega32x");
    reveal_strlit("segacd");
    reveal_strlit("segasaturn");
    reveal_strlit("sfc");
    reveal_strlit("sms");
    reveal_strlit("snes");
    reveal_strlit("superfamicom");
    reveal_strlit("supernintendo");
    reveal_strlit("vita");
    reveal_strlit("wii");
    reveal_with_fuel(alnum_lower, 14);
    assert(alnum_lower("dreamcast"@) =~= "dreamcast"@);
}

proof fn lemma_slug_neogeo()
    ensures
        system_slug("neogeo"@) == Some("neogeo"@),
{
    reveal_strlit("32x");
    reveal_strlit("aes");
    reveal_strlit("dc");
    reveal_strlit("dolphin");
    reveal_strlit("dreamcast");
    reveal_strlit("ds");
    reveal_strlit("famicom");
    reveal_strlit("game-gear");
    reveal_strlit("gameboy");
    reveal_strlit("gameboyadvance");
    reveal_strlit("gameboycolor");
    reveal_strlit("gamegear");
    reveal_strlit("gb");
    reveal_strlit("gba");
    reveal_strlit("gbc");
    reveal_strlit("genesis");
    reveal_strlit("gg");
    reveal_strlit("master-system");
    reveal_strlit("mastersystem");
    reveal_strlit("md");
    reveal_strlit("megacd");
    reveal_strlit("megadrive");
    reveal_strlit("megadrive32x");
    reveal_strlit("megadrivecd");
    reveal_strlit("mvs");
    reveal_strlit("n64");
    reveal_strlit("nds");
    reveal_strlit("neogeo");
    reveal_strlit("nes");
    reveal_strlit("nintendo64");
    reveal_strlit("nintendods");
    reveal_strlit("nintendoentertainmentsystem");
    reveal_strlit("nintendowii");
    reveal_strlit("playstation");
    reveal_strlit("playstation1");
    reveal_strlit("playstation2");
    reveal_strlit("playstation3");
    reveal_strlit("playstation4");
    reveal_strlit("playstation5");
    reveal_strlit("playstationportable");
    reveal_strlit("playstationvita");
    reveal_strlit("ps1");
    reveal_strlit("ps2");
    reveal_strlit("ps3");
    reveal_strlit("ps4");
    reveal_strlit("ps5");
    reveal_strlit("psp");
    reveal_strlit("psvita");
    reveal_strlit("psx");
    reveal_strlit("saturn");
    reveal_strlit("sega-32x");
    reveal_strlit("sega-cd");
    reveal_strlit("sega32x");
    reveal_strlit("segacd");
    reveal_strlit("segasaturn");
    reveal_strlit("sfc");
    reveal_strlit("sms");
    reveal_strlit("snes");
    reveal_strlit("superfamicom");
    reveal_strlit("supernintendo");
    reveal_strlit("vita");
    reveal_strlit("wii");
    reveal_with_fuel(alnum_lower, 14);
    assert(alnum_lower("neogeo"@) =~= "neogeo"@);
}

proof fn lemma_slug_wii()
    ensures
        system_slug("wii"@) == Some("wii"@),
{
    reveal_strlit("32x");
    reveal_strlit("aes");
    reveal_strlit("dc");
    reveal_strlit("dolphin");
    reveal_strlit("dreamcast");
    reveal_strlit("ds");
    reveal_strlit("famicom");
    reveal_strlit("game-gear");
    reveal_strlit("gameboy");
    reveal_strlit("gameboyadvance");
    reveal_strlit("gameboycolor");
    reveal_strlit("gamegear");
    reveal_strlit("gb");
    reveal_strlit("gba");
    reveal_strlit("gbc");
    reveal_strlit("genesis");
    reveal_strlit("gg");
    reveal_strlit("master-system");
    reveal_strlit("mastersystem");
    reveal_strlit("md");
    reveal_strlit("megacd");
    reveal_strlit("megadrive");
    reveal_strlit("megadrive32x");
    reveal_strlit("megadrivecd");
    reveal_strlit("mvs");
    reveal_strlit("n64");
    reveal_strlit("nds");
    reveal_strlit("neogeo");
    reveal_strlit("nes");
    reveal_strlit("nintendo64");
    reveal_strlit("nintendods");
    reveal_strlit("nintendoentertainmentsystem");
    reveal_strlit("nintendowii");
    reveal_strlit("playstation");
    reveal_strlit("playstation1");
    reveal_strlit("playstation2");
    reveal_strlit("playstation3");
    reveal_strlit("playstation4");
    reveal_strlit("playstation5");
    reveal_strlit("playstationportable");
    reveal_strlit("playstationvita");
    reveal_strlit("ps1");
    reveal_strlit("ps2");
    reveal_strlit("ps3");
    reveal_strlit("ps4");
    reveal_strlit("ps5");
    reveal_strlit("psp");
    reveal_strlit("psvita");
    reveal_strlit("psx");
    reveal_strlit("saturn");
    reveal_strlit("sega-32x");
    reveal_strlit("sega-cd");
    reveal_strlit("sega32x");
    reveal_strlit("segacd");
    reveal_strlit("segasaturn");
    reveal_strlit("sfc");
    reveal_strlit("sms");
    reveal_strlit("snes");
    reveal_strlit("superfamicom");
    reveal_strlit("supernintendo");
    reveal_strlit("vita");
    reveal_strlit("wii");
    reveal_with_fuel(alnum_lower, 14);
    assert(alnum_lower("wii"@) =~= "wii"@);
}

proof fn lemma_slug_psx()
    ensures
        system_slug("psx"@) == Some("psx"@),
{
    reveal_strlit("32x");
    reveal_strlit("aes");
    reveal_strlit("dc");
    reveal_strlit("dolphin");
    reveal_strlit("dreamcast");
    reveal_strlit("ds");
    reveal_strlit("famicom");
    reveal_strlit("game-gear");
    reveal_strlit("gameboy");
    reveal_strlit("gameboyadvance");
    reveal_strlit("gameboycolor");
    reveal_strlit("gamegear");
    reveal_strlit("gb");
    reveal_strlit("gba");
    reveal_strlit("gbc");
    reveal_strlit("genesis");
    reveal_strlit("gg");
    reveal_strlit("master-system");
    reveal_strlit("mastersystem");
    reveal_strlit("md");
    reveal_strlit("megacd");
    reveal_strlit("megadrive");
    reveal_strlit("megadrive32x");
    reveal_strlit("megadrivecd");
    reveal_strlit("mvs");
    reveal_strlit("n64");
    reveal_strlit("nds");
    reveal_strlit("neogeo");
    reveal_strlit("nes");
    reveal_strlit("nintendo64");
    reveal_strlit("nintendods");
    reveal_strlit("nintendoentertainmentsystem");
    reveal_strlit("nintendowii");
    reveal_strlit("playstation");
    reveal_strlit("playstation1");
    reveal_strlit("playstation2");
    reveal_strlit("playstation3");
    reveal_strlit("playstation4");
    reveal_strlit("playstation5");
    reveal_strlit("playstationportable");
    reveal_strlit("playstationvita");
    reveal_strlit("ps1");
    reveal_strlit("ps2");
    reveal_strlit("ps3");
    reveal_strlit("ps4");
    reveal_strlit("ps5");
    reveal_strlit("psp");
    reveal_strlit("psvita");
    reveal_strlit("psx");
    reveal_strlit("saturn");
    reveal_strlit("sega-32x");
    reveal_strlit("sega-cd");
    reveal_strlit("sega32x");
    reveal_strlit("segacd");
    reveal_strlit("segasaturn");
    reveal_strlit("sfc");
    reveal_strlit("sms");
    reveal_strlit("snes");
    reveal_strlit("superfamicom");
    reveal_strlit("supernintendo");
    reveal_strlit("vita");
    reveal_strlit("wii");
    reveal_with_fuel(alnum_lower, 14);
    assert(alnum_lower("psx"@) =~= "psx"@);
}

proof fn lemma_slug_ps2()
    ensures
        system_slug("ps2"@) == Some("ps2"@),
{
    reveal_strlit("32x");
    reveal_strlit("aes");
    reveal_strlit("dc");
    reveal_strlit("dolphin");
    reveal_strlit("dreamcast");
    reveal_strlit("ds");
    reveal_strlit("famicom");
    reveal_strlit("game-gear");
    reveal_strlit("gameboy");
    reveal_strlit("gameboyadvance");
    reveal_strlit("gameboycolor");
    reveal_strlit("gamegear");
    reveal_strlit("gb");
    reveal_strlit("gba");
    reveal_strlit("gbc");
    reveal_strlit("genesis");
    reveal_strlit("gg");
    reveal_strlit("master-system");
    reveal_strlit("mastersystem");
    reveal_strlit("md");
    reveal_strlit("megacd");
    reveal_strlit("megadrive");
    reveal_strlit("megadrive32x");
    reveal_strlit("megadrivecd");
    reveal_strlit("mvs");
    reveal_strlit("n64");
    reveal_strlit("nds");
    reveal_strlit("neogeo");
    reveal_strlit("nes");
    reveal_strlit("nintendo64");
    reveal_strlit("nintendods");
    reveal_strlit("nintendoentertainmentsystem");
    reveal_strlit("nintendowii");
    reveal_strlit("playstation");
    reveal_strlit("playstation1");
    reveal_strlit("playstation2");
    reveal_strlit("playstation3");
    reveal_strlit("playstation4");
    reveal_strlit("playstation5");
    reveal_strlit("playstationportable");
    reveal_strlit("playstationvita");
    reveal_strlit("ps1");
    reveal_strlit("ps2");
    reveal_strlit("ps3");
    reveal_strlit("ps4");
    reveal_strlit("ps5");
    reveal_strlit("psp");
    reveal_strlit("psvita");
    reveal_strlit("psx");
    reveal_strlit("saturn");
    reveal_strlit("sega-32x");
    reveal_strlit("sega-cd");
    reveal_strlit("sega32x");
    reveal_strlit("segacd");
    reveal_strlit("segasaturn");
    reveal_strlit("sfc");
    reveal_strlit("sms");
    reveal_strlit("snes");
    reveal_strlit("superfamicom");
    reveal_strlit("supernintendo");
    reveal_strlit("vita");
    reveal_strlit("wii");
    reveal_with_fuel(alnum_lower, 14);
    assert(alnum_lower("ps2"@) =~= "ps2"@);
}

proof fn lemma_slug_psp()
    ensures
        system_slug("psp"@) == Some("psp"@),
{
    reveal_strlit("32x");
    reveal_strlit("aes");
    reveal_strlit("dc");
    reveal_strlit("dolphin");
    reveal_strlit("dreamcast");
    reveal_strlit("ds");
    reveal_strlit("famicom");
    reveal_strlit("game-gear");
    reveal_strlit("gameboy");
    reveal_strlit("gameboyadvance");
    reveal_strlit("gameboycolor");
    reveal_strlit("gamegear");
    reveal_strlit("gb");
    reveal_strlit("gba");
    reveal_strlit("gbc");
    reveal_strlit("genesis");
    reveal_strlit("gg");
    reveal_strlit("master-system");
    reveal_strlit("mastersystem");
    reveal_strlit("md");
    reveal_strlit("megacd");
    reveal_strlit("megadrive");
    reveal_strlit("megadrive32x");
    reveal_strlit("megadrivecd");
    reveal_strlit("mvs");
    reveal_strlit("n64");
    reveal_strlit("nds");
    reveal_strlit("neogeo");
    reveal_strlit("nes");
    reveal_strlit("nintendo64");
    reveal_strlit("nintendods");
    reveal_strlit("nintendoentertainmentsystem");
    reveal_strlit("nintendowii");
    reveal_strlit("playstation");
    reveal_strlit("playstation1");
    reveal_strlit("playstation2");
    reveal_strlit("playstation3");
    reveal_strlit("playstation4");
    reveal_strlit("playstation5");
    reveal_strlit("playstationportable");
    reveal_strlit("playstationvita");
    reveal_strlit("ps1");
    reveal_strlit("ps2");
    reveal_strlit("ps3");
    reveal_strlit("ps4");
    reveal_strlit("ps5");
    reveal_strlit("psp");
    reveal_strlit("psvita");
    reveal_strlit("psx");
    reveal_strlit("saturn");
    reveal_strlit("sega-32x");
    reveal_strlit("sega-cd");
    reveal_strlit("sega32x");
    reveal_strlit("segacd");
    reveal_strlit("segasaturn");
    reveal_strlit("sfc");
    reveal_strlit("sms");
    reveal_strlit("snes");
    reveal_strlit("superfamicom");
    reveal_strlit("supernintendo");
    reveal_strlit("vita");
    reveal_strlit("wii");
    reveal_with_fuel(alnum_lower, 14);
    assert(alnum_lower("psp"@) =~= "psp"@);
}

proof fn lemma_slug_psvita()
    ensures
        system_slug("psvita"@) == Some("psvita"@),
{
    reveal_strlit("32x");
    reveal_strlit("aes");
    reveal_strlit("dc");
    reveal_strlit("dolphin");
    reveal_strlit("dreamcast");
    reveal_strlit("ds");
    reveal_strlit("famicom");
    reveal_strlit("game-gear");
    reveal_strlit("gameboy");
    reveal_strlit("gameboyadvance");
    reveal_strlit("gameboycolor");
    reveal_strlit("gamegear");
    reveal_strlit("gb");
    reveal_strlit("gba");
    reveal_strlit("gbc");
    reveal_strlit("genesis");
    reveal_strlit("gg");
    reveal_strlit("master-system");
    reveal_strlit("mastersystem");
    reveal_strlit("md");
    reveal_strlit("megacd");
    reveal_strlit("megadrive");
    reveal_strlit("megadrive32x");
    reveal_strlit("megadrivecd");
    reveal_strlit("mvs");
    reveal_strlit("n64");
    reveal_strlit("nds");
    reveal_strlit("neogeo");
    reveal_strlit("nes");
    reveal_strlit("nintendo64");
    reveal_strlit("nintendods");
    reveal_strlit("nintendoentertainmentsystem");
    reveal_strlit("nintendowii");
    reveal_strlit("playstation");
    reveal_strlit("playstation1");
    reveal_strlit("playstation2");
    reveal_strlit("playstation3");
    reveal_strlit("playstation4");
    reveal_strlit("playstation5");
    reveal_strlit("playstationportable");
    reveal_strlit("playstationvita");
    reveal_strlit("ps1");
    reveal_strlit("ps2");
    reveal_strlit("ps3");
    reveal_strlit("ps4");
    reveal_strlit("ps5");
    reveal_strlit("psp");
    reveal_strlit("psvita");
    reveal_strlit("psx");
    reveal_strlit("saturn");
    reveal_strlit("sega-32x");
    reveal_strlit("sega-cd");
    reveal_strlit("sega32x");
    reveal_strlit("segacd");
    reveal_strlit("segasaturn");
    reveal_strlit("sfc");
    reveal_strlit("sms");
    reveal_strlit("snes");
    reveal_strlit("superfamicom");
    reveal_strlit("supernintendo");
    reveal_strlit("vita");
    reveal_strlit("wii");
    reveal_with_fuel(alnum_lower, 14);
    assert(alnum_lower("psvita"@) =~= "psvita"@);
}

proof fn lemma_slug_ps3()
    ensures
        system_slug("ps3"@) == Some("ps3"@),
{
    reveal_strlit("32x");
    reveal_strlit("aes");
    reveal_strlit("dc");
    reveal_strlit("dolphin");
    reveal_strlit("dreamcast");
    reveal_strlit("ds");
    reveal_strlit("famicom");
    reveal_strlit("game-gear");
    reveal_strlit("gameboy");
    reveal_strlit("gameboyadvance");
    reveal_strlit("gameboycolor");
    reveal_strlit("gamegear");
    reveal_strlit("gb");
    reveal_strlit("gba");
    reveal_strlit("gbc");
    reveal_strlit("genesis");
    reveal_strlit("gg");
    reveal_strlit("master-system");
    reveal_strlit("mastersystem");
    reveal_strlit("md");
    reveal_strlit("megacd");
    reveal_strlit("megadrive");
    reveal_strlit("megadrive32x");
    reveal_strlit("megadrivecd");
    reveal_strlit("mvs");
    reveal_strlit("n64");
    reveal_strlit("nds");
    reveal_strlit("neogeo");
    reveal_strlit("nes");
    reveal_strlit("nintendo64");
    reveal_strlit("nintendods");
    reveal_strlit("nintendoentertainmentsystem");
    reveal_strlit("nintendowii");
    reveal_strlit("playstation");
    reveal_strlit("playstation1");
    reveal_strlit("playstation2");
    reveal_strlit("playstation3");
    reveal_strlit("playstation4");
    reveal_strlit("playstation5");
    reveal_strlit("playstationportable");
    reveal_strlit("playstationvita");
    reveal_strlit("ps1");
    reveal_strlit("ps2");
    reveal_strlit("ps3");
    reveal_strlit("ps4");
    reveal_strlit("ps5");
    reveal_strlit("psp");
    reveal_strlit("psvita");
    reveal_strlit("psx");
    reveal_strlit("saturn");
    reveal_strlit("sega-32x");
    reveal_strlit("sega-cd");
    reveal_strlit("sega32x");
    reveal_strlit("segacd");
    reveal_strlit("segasaturn");
    reveal_strlit("sfc");
    reveal_strlit("sms");
    reveal_strlit("snes");
    reveal_strlit("superfamicom");
    reveal_strlit("supernintendo");
    reveal_strlit("vita");
    reveal_strlit("wii");
    reveal_with_fuel(alnum_lower, 14);
    assert(alnum_lower("ps3"@) =~= "ps3"@);
}

proof fn lemma_slug_ps4()
    ensures
        system_slug("ps4"@) == Some("ps4"@),
{
    reveal_strlit("32x");
    reveal_strlit("aes");
    reveal_strlit("dc");
    reveal_strlit("dolphin");
    reveal_strlit("dreamcast");
    reveal_strlit("ds");
    reveal_strlit("famicom");
    reveal_strlit("game-gear");
    reveal_strlit("gameboy");
    reveal_strlit("gameboyadvance");
    reveal_strlit("gameboycolor");
    reveal_strlit("gamegear");
    reveal_strlit("gb");
    reveal_strlit("gba");
    reveal_strlit("gbc");
    reveal_strlit("genesis");
    reveal_strlit("gg");
    reveal_strlit("master-system");
    reveal_strlit("mastersystem");
    reveal_strlit("md");
    reveal_strlit("megacd");
    reveal_strlit("megadrive");
    reveal_strlit("megadrive32x");
    reveal_strlit("megadrivecd");
    reveal_strlit("mvs");
    reveal_strlit("n64");
    reveal_strlit("nds");
    reveal_strlit("neogeo");
    reveal_strlit("nes");
    reveal_strlit("nintendo64");
    reveal_strlit("nintendods");
    reveal_strlit("nintendoentertainmentsystem");
    reveal_strlit("nintendowii");
    reveal_strlit("playstation");
    reveal_strlit("playstation1");
    reveal_strlit("playstation2");
    reveal_strlit("playstation3");
    reveal_strlit("playstation4");
    reveal_strlit("playstation5");
    reveal_strlit("playstationportable");
    reveal_strlit("playstationvita");
    reveal_strlit("ps1");
    reveal_strlit("ps2");
    reveal_strlit("ps3");
    reveal_strlit("ps4");
    reveal_strlit("ps5");
    reveal_strlit("psp");
    reveal_strlit("psvita");
    reveal_strlit("psx");
    reveal_strlit("saturn");
    reveal_strlit("sega-32x");
    reveal_strlit("sega-cd");
    reveal_strlit("sega32x");
    reveal_strlit("segacd");
    reveal_strlit("segasaturn");
    reveal_strlit("sfc");
    reveal_strlit("sms");
    reveal_strlit("snes");
    reveal_strlit("superfamicom");
    reveal_strlit("supernintendo");
    reveal_strlit("vita");
    reveal_strlit("wii");
    reveal_with_fuel(alnum_lower, 14);
    assert(alnum_lower("ps4"@) =~= "ps4"@);
}

proof fn lemma_slug_ps5()
    ensures
        system_slug("ps5"@) == Some("ps5"@),
{
    reveal_strlit("32x");
    reveal_strlit("aes");
    reveal_strlit("dc");
    reveal_strlit("dolphin");
    reveal_strlit("dreamcast");
    reveal_strlit("ds");
    reveal_strlit("famicom");
    reveal_strlit("game-gear");
    reveal_strlit("gameboy");
    reveal_strlit("gameboyadvance");
    reveal_strlit("gameboycolor");
    reveal_strlit("gamegear");
    reveal_strlit("gb");
    reveal_strlit("gba");
    reveal_strlit("gbc");
    reveal_strlit("genesis");
    reveal_strlit("gg");
    reveal_strlit("master-system");
    reveal_strlit("mastersystem");
    reveal_strlit("md");
    reveal_strlit("megacd");
    reveal_strlit("megadrive");
    reveal_strlit("megadrive32x");
    reveal_strlit("megadrivecd");
    reveal_strlit("mvs");
    reveal_strlit("n64");
    reveal_strlit("nds");
    reveal_strlit("neogeo");
    reveal_strlit("nes");
    reveal_strlit("nintendo64");
    reveal_strlit("nintendods");
    reveal_strlit("nintendoentertainmentsystem");
    reveal_strlit("nintendowii");
    reveal_strlit("playstation");
    reveal_strlit("playstation1");
    reveal_strlit("playstation2");
    reveal_strlit("playstation3");
    reveal_strlit("playstation4");
    reveal_strlit("playstation5");
    reveal_strlit("playstationportable");
    reveal_strlit("playstationvita");
    reveal_strlit("ps1");
    reveal_strlit("ps2");
    reveal_strlit("ps3");
    reveal_strlit("ps4");
    reveal_strlit("ps5");
    reveal_strlit("psp");
    reveal_strlit("psvita");
    reveal_strlit("psx");
    reveal_strlit("saturn");
    reveal_strlit("sega-32x");
    reveal_strlit("sega-cd");
    reveal_strlit("sega32x");
    reveal_strlit("segacd");
    reveal_strlit("segasaturn");
    reveal_strlit("sfc");
    reveal_strlit("sms");
    reveal_strlit("snes");
    reveal_strlit("superfamicom");
    reveal_strlit("supernintendo");
    reveal_strlit("vita");
    reveal_strlit("wii");
    reveal_with_fuel(alnum_lower, 14);
    assert(alnum_lower("ps5"@) =~= "ps5"@);
}

/// Each system's own name names it.
proof fn lemma_system_names_itself(y: Seq<char>)
    requires
        all_sync_systems().contains(y),
    ensures
        system_slug(y) == Some(y),
{
    let a = all_sync_systems();
    let i = choose|i: int| 0 <= i < a.len() && a[i] == y;
    if y == "nes"@ { lemma_slug_nes(); }
    if y == "snes"@ { lemma_slug_snes(); }
    if y == "gameboy"@ { lemma_slug_gameboy(); }
    if y == "gba"@ { lemma_slug_gba(); }
    if y == "n64"@ { lemma_slug_n64(); }
    if y == "nds"@ { lemma_slug_nds(); }
    if y == "genesis"@ { lemma_slug_genesis(); }
    if y == "master-system"@ { lemma_slug_master_system(); }
    if y == "game-gear"@ { lemma_slug_game_gear(); }
    if y == "sega-cd"@ { lemma_slug_sega_cd(); }
    if y == "sega-32x"@ { lemma_slug_sega_32x(); }
    if y == "saturn"@ { lemma_slug_saturn(); }
    if y == "dreamcast"@ { lemma_slug_dreamcast(); }
    if y == "neogeo"@ { lemma_slug_neogeo(); }
    if y == "wii"@ { lemma_slug_wii(); }
    if y == "psx"@ { lemma_slug_psx(); }
    if y == "ps2"@ { lemma_slug_ps2(); }
    if y == "psp"@ { lemma_slug_psp(); }
    if y == "psvita"@ { lemma_slug_psvita(); }
    if y == "ps3"@ { lemma_slug_ps3(); }
    if y == "ps4"@ { lemma_slug_ps4(); }
    if y == "ps5"@ { lemma_slug_ps5(); }
}

} // verus!

verus! {

// ---------------------------------------------------------------------------
// The order the sources are written in
// ---------------------------------------------------------------------------

/// The positions `ord` list the sources by id, in ascending order.
pub open spec fn ids_ascending(s: Seq<Source>, ord: Seq<int>) -> bool {
    forall|i: int, j: int| 0 <= i < j < ord.len() ==> lex_le(#[trigger] s[ord[i]].id@, #[trigger] s[ord[j]].id@)
}

/// Every position in `ord` names a source whose id is at most `b`.
pub open spec fn ids_at_most(s: Seq<Source>, ord: Seq<int>, b: Seq<char>) -> bool {
    forall|k: int| 0 <= k < ord.len() ==> lex_le(s[#[trigger] ord[k]].id@, b)
}

proof fn lemma_insert_bound(s: Seq<Source>, sorted: Seq<int>, x: int, b: Seq<char>)
    requires
        ids_at_most(s, sorted, b),
        lex_le(s[x].id@, b),
    ensures
        ids_at_most(s, insert_by_id(s, sorted, x), b),
    decreases sorted.len(),
{
    if sorted.len() > 0 && !lex_le(s[sorted.last()].id@, s[x].id@) {
        let d = sorted.drop_last();
        assert(ids_at_most(s, d, b)) by {
            assert forall|k: int| 0 <= k < d.len() implies lex_le(s[#[trigger] d[k]].id@, b) by {
                assert(d[k] == sorted[k]);
            }
        }
        lemma_insert_bound(s, d, x, b);
        assert(lex_le(s[sorted[sorted.len() - 1]].id@, b));
        let r = insert_by_id(s, d, x);
        assert forall|k: int| 0 <= k < r.push(sorted.last()).len() implies lex_le(s[#[trigger] r.push(sorted.last())[k]].id@, b) by {
            if k < r.len() {
                assert(r.push(sorted.last())[k] == r[k]);
            }
        }
    }
}

proof fn lemma_insert_sorted(s: Seq<Source>, sorted: Seq<int>, x: int)
    requires
        ids_ascending(s, sorted),
    ensures
        ids_ascending(s, insert_by_id(s, sorted, x)),
    decreases sorted.len(),
{
    if sorted.len() == 0 {
    } else if lex_le(s[sorted.last()].id@, s[x].id@) {
        let r = sorted.push(x);
        assert forall|i: int, j: int| 0 <= i < j < r.len() implies lex_le(#[trigger] s[r[i]].id@, #[trigger] s[r[j]].id@) by {
            if j == r.len() - 1 {
                if i < sorted.len() - 1 {
                    assert(lex_le(s[sorted[i]].id@, s[sorted[sorted.len() - 1]].id@));
                    lemma_lex_trans(s[sorted[i]].id@, s[sorted.last()].id@, s[x].id@);
                }
            } else {
                assert(r[i] == sorted[i] && r[j] == sorted[j]);
            }
        }
    } else {
        let last = sorted.last();
        lemma_lex_total(s[last].id@, s[x].id@);
        let d = sorted.drop_last();
        assert(ids_ascending(s, d)) by {
            assert forall|i: int, j: int| 0 <= i < j < d.len() implies lex_le(#[trigger] s[d[i]].id@, #[trigger] s[d[j]].id@) by {
                assert(d[i] == sorted[i] && d[j] == sorted[j]);
            }
        }
        lemma_insert_sorted(s, d, x);
        assert(ids_at_most(s, d, s[last].id@)) by {
            assert forall|k: int| 0 <= k < d.len() implies lex_le(s[#[trigger] d[k]].id@, s[last].id@) by {
                assert(d[k] == sorted[k]);
                assert(lex_le(s[sorted[k]].id@, s[sorted[sorted.len() - 1]].id@));
            }
        }
        lemma_insert_bound(s, d, x, s[last].id@);
        let r0 = insert_by_id(s, d, x);
        let r = r0.push(last);
        assert forall|i: int, j: int| 0 <= i < j < r.len() implies lex_le(#[trigger] s[r[i]].id@, #[trigger] s[r[j]].id@) by {
            if j == r.len() - 1 {
                assert(r[i] == r0[i]);
                assert(lex_le(s[r0[i]].id@, s[last].id@));
            } else {
                assert(r[i] == r0[i] && r[j] == r0[j]);
            }
        }
    }
}

proof fn lemma_order_sorted(s: Seq<Source>, n: nat)
    ensures
        ids_ascending(s, order_by_id(s, n)),
    decreases n,
{
    if n > 0 {
        lemma_order_sorted(s, (n - 1) as nat);
        lemma_insert_sorted(s, order_by_id(s, (n - 1) as nat), n - 1);
    }
}

proof fn lemma_insert_counts(s: Seq<Source>, sorted: Seq<int>, x: int)
    ensures
        insert_by_id(s, sorted, x).to_multiset() =~= sorted.to_multiset().insert(x),
    decreases sorted.len(),
{
    broadcast use vstd::seq_lib::group_seq_properties;
    broadcast use vstd::multiset::group_multiset_axioms;
    if sorted.len() == 0 {
        assert(seq![x] =~= Seq::<int>::empty().push(x));
        vstd::seq_lib::to_multiset_build(Seq::<int>::empty(), x);
    } else if lex_le(s[sorted.last()].id@, s[x].id@) {
        vstd::seq_lib::to_multiset_build(sorted, x);
    } else {
        let d = sorted.drop_last();
        lemma_insert_counts(s, d, x);
        assert(d.push(sorted.last()) =~= sorted);
        vstd::seq_lib::to_multiset_build(d, sorted.last());
        vstd::seq_lib::to_multiset_build(insert_by_id(s, d, x), sorted.last());
    }
}

/// Each position below `n` occurs once in the order the sources are written
/// in.
proof fn lemma_order_counts(s: Seq<Source>, n: nat)
    ensures
        order_by_id(s, n).to_multiset() =~= Seq::new(n, |k: int| k).to_multiset(),
    decreases n,
{
    broadcast use vstd::multiset::group_multiset_axioms;
    if n == 0 {
        assert(Seq::new(n, |k: int| k) =~= Seq::<int>::empty());
        Seq::<int>::empty().to_multiset_ensures();
        assert(order_by_id(s, n) =~= Seq::<int>::empty());
    } else {
        lemma_order_counts(s, (n - 1) as nat);
        lemma_insert_counts(s, order_by_id(s, (n - 1) as nat), n - 1);
        let m = (n - 1) as nat;
        assert(Seq::new(n, |k: int| k) =~= Seq::new(m, |k: int| k).push(n - 1));
        vstd::seq_lib::to_multiset_build(Seq::new(m, |k: int| k), n - 1);
    }
}

// ---------------------------------------------------------------------------
// The text kept when the sources are written again
// ---------------------------------------------------------------------------

/// A line without a new line in it.
pub open spec fn no_newline(l: Seq<char>) -> bool {
    forall|i: int| 0 <= i < l.len() ==> #[trigger] l[i] != '\n'
}

/// A line that is no `[source.<id>]` header.
pub open spec fn not_source_header(l: Seq<char>) -> bool {
    is_header(trim(l)) ==> !starts_with(header_name(trim(l)), source_prefix())
}

proof fn lemma_trim_drops_last_space(l: Seq<char>)
    requires
        l.len() > 0,
        is_ws(l.last()),
    ensures
        trim(l.drop_last()) == trim(l),
    decreases l.len(),
{
    if is_ws(l[0]) {
        if l.len() == 1 {
            assert(l.drop_last() =~= Seq::<char>::empty());
            assert(l.drop_first() =~= Seq::<char>::empty());
            assert(trim_start(l) == trim_start(l.drop_first()));
        } else {
            let f = l.drop_first();
            assert(f.last() == l.last());
            lemma_trim_drops_last_space(f);
            assert(l.drop_last().drop_first() =~= f.drop_last());
            assert(l.drop_last()[0] == l[0]);
            assert(trim_start(l.drop_last()) == trim_start(l.drop_last().drop_first()));
            assert(trim_start(l) == trim_start(f));
        }
    } else {
        assert(trim_start(l) == l);
        if l.len() > 1 {
            assert(l.drop_last()[0] == l[0]);
        }
        assert(trim_start(l.drop_last()) == l.drop_last());
        assert(trim_end(l) == trim_end(l.drop_last()));
    }
}

proof fn lemma_trim_strip_cr(l: Seq<char>)
    ensures
        trim(strip_cr(l)) == trim(l),
{
    if l.len() > 0 && l.last() == '\r' {
        lemma_trim_drops_last_space(l);
    }
}

proof fn lemma_lines_state_no_newline(s: Seq<char>)
    ensures
        forall|i: int| 0 <= i < lines_state(s).0.len() ==> no_newline(#[trigger] lines_state(s).0[i]),
        no_newline(lines_state(s).1),
    decreases s.len(),
{
    if s.len() > 0 {
        lemma_lines_state_no_newline(s.drop_last());
        let (done, cur) = lines_state(s.drop_last());
        if s.last() == '\n' {
            assert(no_newline(strip_cr(cur))) by {
                if cur.len() > 0 && cur.last() == '\r' {
                    assert forall|i: int| 0 <= i < cur.drop_last().len() implies #[trigger] cur.drop_last()[i] != '\n' by {
                        assert(cur.drop_last()[i] == cur[i]);
                    }
                }
            }
            assert forall|i: int| 0 <= i < done.push(strip_cr(cur)).len() implies no_newline(#[trigger] done.push(strip_cr(cur))[i]) by {
                if i < done.len() {
                    assert(done.push(strip_cr(cur))[i] == done[i]);
                }
            }
        } else {
            assert forall|i: int| 0 <= i < cur.push(s.last()).len() implies #[trigger] cur.push(s.last())[i] != '\n' by {
                if i < cur.len() {
                    assert(cur.push(s.last())[i] == cur[i]);
                }
            }
        }
    }
}

proof fn lemma_lines_no_newline(s: Seq<char>)
    ensures
        forall|i: int| 0 <= i < lines(s).len() ==> no_newline(#[trigger] lines(s)[i]),
{
    lemma_lines_state_no_newline(s);
    let (done, cur) = lines_state(s);
    assert forall|i: int| 0 <= i < lines(s).len() implies no_newline(#[trigger] lines(s)[i]) by {
        if i < done.len() {
            assert(lines(s)[i] == done[i]);
        }
    }
}

proof fn lemma_strip_state_kept(ls: Seq<Seq<char>>)
    requires
        forall|i: int| 0 <= i < ls.len() ==> no_newline(#[trigger] ls[i]),
    ensures
        forall|k: int| 0 <= k < strip_state(ls).0.len() ==> no_newline(#[trigger] strip_state(ls).0[k])
            && not_source_header(strip_state(ls).0[k]),
    decreases ls.len(),
{
    if ls.len() > 0 {
        let d = ls.drop_last();
        assert forall|i: int| 0 <= i < d.len() implies no_newline(#[trigger] d[i]) by {
            assert(d[i] == ls[i]);
        }
        lemma_strip_state_kept(d);
        let (kept, skipping) = strip_state(d);
        let l = ls.last();
        assert(no_newline(l)) by {
            assert(l == ls[ls.len() - 1]);
        }
        assert forall|k: int| 0 <= k < strip_state(ls).0.len() implies no_newline(#[trigger] strip_state(ls).0[k])
            && not_source_header(strip_state(ls).0[k]) by {
            if k < kept.len() {
                assert(strip_state(ls).0[k] == kept[k]);
            } else {
                assert(strip_state(ls).0[k] == l);
            }
        }
    }
}

proof fn lemma_drop_blank_tail_prefix(ls: Seq<Seq<char>>)
    ensures
        drop_blank_tail(ls).len() <= ls.len(),
        forall|i: int| 0 <= i < drop_blank_tail(ls).len() ==> #[trigger] drop_blank_tail(ls)[i] == ls[i],
    decreases ls.len(),
{
    if ls.len() > 0 && trim(ls.last()).len() == 0 {
        lemma_drop_blank_tail_prefix(ls.drop_last());
        assert forall|i: int| 0 <= i < drop_blank_tail(ls).len() implies #[trigger] drop_blank_tail(ls)[i] == ls[i] by {
            assert(ls.drop_last()[i] == ls[i]);
        }
    }
}

proof fn lemma_lines_state_any_line(p: Seq<char>, l: Seq<char>)
    requires
        lines_state(p).1 == Seq::<char>::empty(),
        no_newline(l),
    ensures
        lines_state(p + l + seq!['\n']) == (lines_state(p).0.push(strip_cr(l)), Seq::<char>::empty()),
{
    lemma_lines_state_chars(p, l);
    let q = p + l + seq!['\n'];
    assert(q.drop_last() =~= p + l);
    assert(q.last() == '\n');
}

proof fn lemma_lines_of_joined_any(ls: Seq<Seq<char>>)
    requires
        ls.len() > 0,
        forall|i: int| 0 <= i < ls.len() ==> no_newline(#[trigger] ls[i]),
    ensures
        lines_state(join_with(ls, "\n"@) + "\n"@) == (ls.map_values(|l: Seq<char>| strip_cr(l)), Seq::<char>::empty()),
    decreases ls.len(),
{
    reveal_strlit("\n");
    assert("\n"@ =~= seq!['\n']);
    if ls.len() == 1 {
        assert(lines_state(Seq::<char>::empty()) == (Seq::<Seq<char>>::empty(), Seq::<char>::empty()));
        lemma_lines_state_any_line(Seq::<char>::empty(), ls[0]);
        assert(Seq::<char>::empty() + ls[0] + seq!['\n'] =~= join_with(ls, "\n"@) + "\n"@);
        assert(Seq::<Seq<char>>::empty().push(strip_cr(ls[0])) =~= ls.map_values(|l: Seq<char>| strip_cr(l)));
    } else {
        let d = ls.drop_last();
        assert forall|i: int| 0 <= i < d.len() implies no_newline(#[trigger] d[i]) by {
            assert(d[i] == ls[i]);
        }
        lemma_lines_of_joined_any(d);
        let p = join_with(d, "\n"@) + "\n"@;
        assert(no_newline(ls[ls.len() - 1]));
        lemma_lines_state_any_line(p, ls.last());
        assert(p + ls.last() + seq!['\n'] =~= join_with(ls, "\n"@) + "\n"@);
        assert(d.map_values(|l: Seq<char>| strip_cr(l)).push(strip_cr(ls.last())) =~= ls.map_values(|l: Seq<char>| strip_cr(l)));
    }
}

proof fn lemma_quiet_lines(ms: Seq<Seq<char>>)
    requires
        forall|i: int| 0 <= i < ms.len() ==> not_source_header(#[trigger] ms[i]),
    ensures
        sections_state(ms) == Ok::<(Seq<SectionView>, Option<SectionView>), nat>((seq![], None)),
    decreases ms.len(),
{
    if ms.len() > 0 {
        let d = ms.drop_last();
        assert forall|i: int| 0 <= i < d.len() implies not_source_header(#[trigger] d[i]) by {
            assert(d[i] == ms[i]);
        }
        lemma_quiet_lines(d);
        assert(not_source_header(ms[ms.len() - 1]));
    }
}

/// The configuration text with its source sections taken out opens no
/// source section, whatever the text was.
pub proof fn lemma_stripped_text_is_quiet(content: Seq<char>)
    ensures
        quiet_base_text(without_source_sections(content)),
{
    let ls = lines(content);
    lemma_lines_no_newline(content);
    lemma_strip_state_kept(ls);
    let kept = strip_state(ls).0;
    let k = drop_blank_tail(kept);
    lemma_drop_blank_tail_prefix(kept);
    let base = without_source_sections(content);
    if k.len() == 0 {
        assert(base == Seq::<char>::empty());
        lemma_trim_keeps(Seq::<char>::empty());
    } else {
        assert forall|i: int| 0 <= i < k.len() implies no_newline(#[trigger] k[i]) by {
            assert(k[i] == kept[i]);
        }
        lemma_lines_of_joined_any(k);
        let ms = k.map_values(|l: Seq<char>| strip_cr(l));
        assert(base_lines(base) == ms);
        assert forall|i: int| 0 <= i < ms.len() implies not_source_header(#[trigger] ms[i]) by {
            assert(k[i] == kept[i]);
            assert(not_source_header(kept[i]));
            lemma_trim_strip_cr(k[i]);
        }
        lemma_quiet_lines(ms);
    }
}

/// Saving sources into a configuration file (`saved_config_text`) and
/// reading it back gives the sources back, whatever the file held before:
/// its old source sections are taken out, the rest of its text is kept, and
/// the sources are written after it; see `law_rendered_store_reads_back` for
/// what is read back.
pub proof fn law_saved_store_reads_back(existing: Seq<char>, s: Seq<Source>)
    requires
        forall|i: int| 0 <= i < s.len() ==> storable(#[trigger] s[i]) && s[i].save_roots@.len() == 1
            && s[i].rom_roots@.len() == 1 && known_systems(s[i].systems.deep_view()),
    ensures
        source_sections(rendered_config(without_source_sections(existing), s)) is Ok,
        ({
            let ord = order_by_id(s, s.len());
            let d = sections_with_save(source_sections(rendered_config(without_source_sections(existing), s))->Ok_0);
            &&& ord.len() == s.len()
            &&& forall|k: int| 0 <= k < ord.len() ==> 0 <= #[trigger] ord[k] < s.len()
            &&& ord.to_multiset() == Seq::new(s.len(), |k: int| k).to_multiset()
            &&& ids_ascending(s, ord)
            &&& d.len() == s.len()
            &&& forall|i: int, r: Source| 0 <= i < d.len() && #[trigger] source_describes(r, d[i]) ==> read_back_as(r, s[ord[i]])
                && r.systems.deep_view() == sorted_sync_systems().filter(|y: Seq<char>| s[ord[i]].systems.deep_view().contains(y))
        }),
{
    lemma_stripped_text_is_quiet(existing);
    law_rendered_store_reads_back(without_source_sections(existing), s);
}

} // verus!
