//! Which files the MiSTer and Windows helpers take for saves.
use vstd::prelude::*;
use crate::paths::file_extension;
use crate::steamdeck::scanner::path_extension;
use crate::text::{eq_lit, lower};

verus! {

/// The extensions of the save files the helper syncs.
pub open spec fn mister_save_extensions() -> Seq<Seq<char>> {
    seq!["sav"@, "srm"@, "state"@, "eep"@, "fla"@, "sa1"@, "dat"@, "rtc"@, "ram"@, "ss"@, "fgp"@]
}

/// The same extensions in lexicographic order.
pub open spec fn sorted_mister_extensions() -> Seq<Seq<char>> {
    seq!["dat"@, "eep"@, "fgp"@, "fla"@, "ram"@, "rtc"@, "sa1"@, "sav"@, "srm"@, "ss"@, "state"@]
}

/// The known save extensions, sorted and each once (a set).
pub fn known_extensions() -> (r: Vec<&'static str>)
    ensures
        r@.len() == sorted_mister_extensions().len(),
        forall|i: int| 0 <= i < r@.len() ==> (#[trigger] r@[i])@ == sorted_mister_extensions()[i],
{
    vec!["dat", "eep", "fgp", "fla", "ram", "rtc", "sa1", "sav", "srm", "ss", "state"]
}

/// Whether a path names a save file: its extension is a save extension, in
/// any ASCII case.
pub open spec fn is_save_path(p: Seq<char>) -> bool {
    match file_extension(p) {
        Some(e) => mister_save_extensions().contains(lower(e)),
        None => false,
    }
}

pub fn is_save_file(path: &str) -> (r: bool)
    ensures
        r == is_save_path(path@),
{
    match path_extension(path) {
        Some(e) => {
            let e = e.as_slice();
            let r = eq_lit(e, "sav") || eq_lit(e, "srm") || eq_lit(e, "state") || eq_lit(e, "eep") || eq_lit(e, "fla")
                || eq_lit(e, "sa1") || eq_lit(e, "dat") || eq_lit(e, "rtc") || eq_lit(e, "ram") || eq_lit(e, "ss")
                || eq_lit(e, "fgp");
            proof {
                let l = e@;
                let s = mister_save_extensions();
                if r {
                    assert(s.contains(l)) by {
                        if l == "sav"@ { assert(s[0] == l); }
                        else if l == "srm"@ { assert(s[1] == l); }
                        else if l == "state"@ { assert(s[2] == l); }
                        else if l == "eep"@ { assert(s[3] == l); }
                        else if l == "fla"@ { assert(s[4] == l); }
                        else if l == "sa1"@ { assert(s[5] == l); }
                        else if l == "dat"@ { assert(s[6] == l); }
                        else if l == "rtc"@ { assert(s[7] == l); }
                        else if l == "ram"@ { assert(s[8] == l); }
                        else if l == "ss"@ { assert(s[9] == l); }
                        else { assert(s[10] == l); }
                    }
                } else {
                    assert(!s.contains(l));
                }
            }
            r
        },
        None => false,
    }
}


/// Whether an extension is one of the save extensions, in any ASCII case.
pub fn is_save_extension(ext: &str) -> (r: bool)
    ensures
        r == mister_save_extensions().contains(lower(ext@)),
{
    let v = crate::text::lower_str(ext);
    let e = v.as_slice();
    let r = eq_lit(e, "sav") || eq_lit(e, "srm") || eq_lit(e, "state") || eq_lit(e, "eep") || eq_lit(e, "fla")
        || eq_lit(e, "sa1") || eq_lit(e, "dat") || eq_lit(e, "rtc") || eq_lit(e, "ram") || eq_lit(e, "ss")
        || eq_lit(e, "fgp");
    proof {
        let l = e@;
        let s = mister_save_extensions();
        if r {
            assert(s.contains(l)) by {
                if l == "sav"@ { assert(s[0] == l); }
                else if l == "srm"@ { assert(s[1] == l); }
                else if l == "state"@ { assert(s[2] == l); }
                else if l == "eep"@ { assert(s[3] == l); }
                else if l == "fla"@ { assert(s[4] == l); }
                else if l == "sa1"@ { assert(s[5] == l); }
                else if l == "dat"@ { assert(s[6] == l); }
                else if l == "rtc"@ { assert(s[7] == l); }
                else if l == "ram"@ { assert(s[8] == l); }
                else if l == "ss"@ { assert(s[9] == l); }
                else { assert(s[10] == l); }
            }
        } else {
            assert(!s.contains(l));
        }
    }
    r
}

} // verus!
