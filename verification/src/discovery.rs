//! The playlist rule of file discovery: which of the paths a directory walk
//! yields belong in the playlist. The walk itself is I/O and lives outside;
//! the rule — keep exactly the paths whose extension is `wav`, in discovered
//! order — is verified here.

use vstd::prelude::*;
use vstd::string::StrSliceExecFns;

verus! {

/// A path names a playable file exactly when its extension is `wav`,
/// case-sensitively: it ends in `.wav`, and the character before that suffix
/// is not the path separator. A component that is exactly `.wav` is a hidden
/// file whose name has no extension, so it does not qualify.
pub open spec fn is_wav_name(s: Seq<char>) -> bool {
    &&& s.len() >= 5
    &&& s.subrange(s.len() - 4, s.len() as int) == seq!['.', 'w', 'a', 'v']
    &&& s[s.len() - 5] != '/'
}

/// The playlist predicate as a value, so that every contract speaks of one
/// and the same function.
pub open spec fn wav_name_pred() -> spec_fn(Seq<char>) -> bool {
    |t: Seq<char>| is_wav_name(t)
}

/// The paths of a playlist as their character sequences.
pub open spec fn path_views(ps: Seq<String>) -> Seq<Seq<char>> {
    ps.map_values(|s: String| s@)
}

/// Whether `path`'s extension is `wav`, case-sensitively.
pub fn has_wav_extension(path: &str) -> (b: bool)
    ensures
        b == is_wav_name(path@),
{
    let n: usize = path.unicode_len();
    if n < 5 {
        return false;
    }
    let b = path.get_char(n - 4) == '.' && path.get_char(n - 3) == 'w' && path.get_char(n - 2)
        == 'a' && path.get_char(n - 1) == 'v' && path.get_char(n - 5) != '/';
    proof {
        let s = path@;
        let tail = s.subrange(s.len() - 4, s.len() as int);
        let wav = seq!['.', 'w', 'a', 'v'];
        assert(tail[0] == s[s.len() - 4]);
        assert(tail[1] == s[s.len() - 3]);
        assert(tail[2] == s[s.len() - 2]);
        assert(tail[3] == s[s.len() - 1]);
        assert(wav[0] == '.' && wav[1] == 'w' && wav[2] == 'a' && wav[3] == 'v');
        if b {
            assert(tail =~= wav);
        }
    }
    b
}

/// Builds the playlist from the paths a directory walk discovered: keeps, in
/// their discovered order, exactly the paths whose extension is `wav`.
pub fn filter_wav_paths(paths: &Vec<String>) -> (out: Vec<String>)
    ensures
        path_views(out@) == path_views(paths@).filter(wav_name_pred()),
{
    let mut out: Vec<String> = Vec::new();
    let mut i: usize = 0;
    while i < paths.len()
        invariant
            i <= paths.len(),
            path_views(out@) == path_views(paths@).take(i as int).filter(wav_name_pred()),
        decreases paths.len() - i,
    {
        let p = &paths[i];
        let keep = has_wav_extension(p.as_str());
        let ghost prev_views = path_views(out@);
        if keep {
            out.push(p.clone());
        }
        i = i + 1;
        proof {
            reveal(Seq::filter);
            let views = path_views(paths@);
            assert(views.take(i as int).drop_last() =~= views.take(i - 1));
            assert(views.take(i as int).last() == p@);
            if keep {
                assert(path_views(out@) =~= prev_views.push(p@));
            } else {
                assert(path_views(out@) == prev_views);
            }
        }
    }
    proof {
        assert(path_views(paths@).take(paths@.len() as int) =~= path_views(paths@));
    }
    out
}

} // verus!
