//! File-system paths as text, joined the way `PathBuf::push` joins them on
//! Unix: an absolute component replaces the path, otherwise a `/` is put
//! between the two unless the path is empty or already ends with one.

use vstd::prelude::*;

verus! {

/// `base` joined with `comp`.
pub open spec fn path_join(base: Seq<char>, comp: Seq<char>) -> Seq<char> {
    if comp.len() > 0 && comp[0] == '/' {
        comp
    } else if base.len() == 0 || base.last() == '/' {
        base + comp
    } else {
        base + seq!['/'] + comp
    }
}

/// Join a path component onto a path.
pub fn join_path(base: &str, comp: &str) -> (p: String)
    ensures
        p@ == path_join(base@, comp@),
{
    let comp_len = comp.unicode_len();
    if comp_len > 0 && comp.get_char(0) == '/' {
        return String::from_str(comp);
    }
    let base_len = base.unicode_len();
    let mut p = String::from_str(base);
    if base_len > 0 && base.get_char(base_len - 1) != '/' {
        p.append("/");
        proof {
            reveal_strlit("/");
        }
    }
    p.append(comp);
    p
}

/// Whether a file name has the extension `ext`, as `Path::extension`
/// reads it: the text after the last `.`, where that `.` is not the first
/// character of the name.
pub open spec fn has_extension(name: Seq<char>, ext: Seq<char>) -> bool {
    &&& name.len() > ext.len() + 1
    &&& name.subrange(name.len() - ext.len(), name.len() as int) == ext
    &&& name[name.len() - ext.len() - 1] == '.'
    &&& !ext.contains('.')
}

/// Whether a file name ends in the extension `.json`.
pub fn is_json_file_name(name: &str) -> (b: bool)
    ensures
        b == has_extension(name@, "json"@),
{
    proof {
        reveal_strlit("json");
    }
    let n = name.unicode_len();
    if n < 6 {
        return false;
    }
    let tail = name.substring_char(n - 5, n);
    let ok = tail.get_char(0) == '.' && tail.get_char(1) == 'j' && tail.get_char(2) == 's'
        && tail.get_char(3) == 'o' && tail.get_char(4) == 'n';
    proof {
        assert(!"json"@.contains('.')) by {
            if "json"@.contains('.') {
                let k = choose|k: int| 0 <= k < 4 && "json"@[k] == '.';
            }
        }
        if ok {
            assert(name@.subrange(n - 4, n as int) =~= "json"@);
        } else if has_extension(name@, "json"@) {
            assert(name@.subrange(n - 4, n as int)[0] == 'j');
            assert(name@.subrange(n - 4, n as int)[1] == 's');
            assert(name@.subrange(n - 4, n as int)[2] == 'o');
            assert(name@.subrange(n - 4, n as int)[3] == 'n');
        }
    }
    ok
}

} // verus!
