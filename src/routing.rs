use vstd::prelude::*;
use vstd::string::*;
use crate::twitch::{matches_at, occurs_at};

verus! {

/// The first label of the host names the link convention of clip pages.
pub open spec fn clips_label() -> Seq<char> {
    seq!['c', 'l', 'i', 'p', 's']
}

/// The first label of the host names the link convention of channel pages.
pub open spec fn www_label() -> Seq<char> {
    seq!['w', 'w', 'w']
}

/// The first dot-separated label of `host` is `label`.
pub open spec fn has_first_label(host: Seq<char>, label: Seq<char>) -> bool {
    &&& occurs_at(host, label, 0)
    &&& (host.len() == label.len() || host[label.len() as int] == '.')
}

/// `i` is the index of the last slash of `path`.
pub open spec fn is_last_slash(path: Seq<char>, i: int) -> bool {
    &&& 0 <= i < path.len()
    &&& path[i] == '/'
    &&& forall|j: int| i < j < path.len() ==> path[j] != '/'
}

/// The final segment of a path: all after its last slash.
pub open spec fn last_segment(path: Seq<char>) -> Seq<char> {
    if exists|i: int| 0 <= i < path.len() && path[i] == '/' {
        let i = choose|i: int| is_last_slash(path, i);
        path.subrange(i + 1, path.len() as int)
    } else {
        path
    }
}

/// A path without its leading slash.
pub open spec fn without_leading_slash(path: Seq<char>) -> Seq<char> {
    if path.len() > 0 && path[0] == '/' {
        path.drop_first()
    } else {
        path
    }
}

/// The identifier that a link convention reads from an inbound address,
/// before the empty identifier is rejected.
pub open spec fn raw_clip_id_of(host: Seq<char>, path: Seq<char>) -> Option<Seq<char>> {
    if has_first_label(host, clips_label()) {
        Some(without_leading_slash(path))
    } else if has_first_label(host, www_label()) {
        Some(last_segment(path))
    } else {
        None
    }
}

/// The clip that an inbound address names: none where no convention matches
/// or the identifier is empty.
pub open spec fn clip_id_of(host: Seq<char>, path: Seq<char>) -> Option<Seq<char>> {
    match raw_clip_id_of(host, path) {
        Some(id) => if id.len() > 0 {
            Some(id)
        } else {
            None
        },
        None => None,
    }
}

/// Whether the first label of `host` is `label`.
fn first_label_is(host: &str, label: &str) -> (r: bool)
    ensures
        r == has_first_label(host@, label@),
{
    let n = host.unicode_len();
    let len = label.unicode_len();
    if len > n {
        return false;
    }
    if !matches_at(host, n, label, len, 0) {
        return false;
    }
    len == n || host.get_char(len) == '.'
}

/// The final segment of `path`.
fn final_segment(path: &str) -> (r: String)
    ensures
        r@ == last_segment(path@),
{
    let n = path.unicode_len();
    let mut i: usize = n;
    while i > 0
        invariant
            n == path@.len(),
            i <= n,
            forall|j: int| i <= j < n ==> path@[j] != '/',
        decreases i,
    {
        if path.get_char(i - 1) == '/' {
            let ghost s = path@;
            proof {
                assert(is_last_slash(s, i - 1));
                let k = choose|k: int| is_last_slash(s, k);
                if k < i - 1 {
                    assert(s[i - 1] != '/');
                } else if k > i - 1 {
                    assert(s[k] != '/');
                }
            }
            return path.substring_char(i, n).to_owned();
        }
        i -= 1;
    }
    proof {
        assert(path@.subrange(0, n as int) =~= path@);
    }
    path.substring_char(0, n).to_owned()
}

/// The clip identifier of an inbound request, from its host and path.
pub fn clip_id_from(host: &str, path: &str) -> (r: Option<String>)
    ensures
        r is Some <==> clip_id_of(host@, path@) is Some,
        r is Some ==> clip_id_of(host@, path@) == Some(r.unwrap()@),
        r is Some ==> r.unwrap()@.len() > 0,
{
    let clips = "clips";
    let www = "www";
    proof {
        reveal_strlit("clips");
        reveal_strlit("www");
        assert(clips@ =~= clips_label());
        assert(www@ =~= www_label());
    }
    let id = if first_label_is(host, clips) {
        let n = path.unicode_len();
        if n > 0 && path.get_char(0) == '/' {
            proof {
                assert(path@.subrange(1, n as int) =~= path@.drop_first());
            }
            path.substring_char(1, n).to_owned()
        } else {
            proof {
                assert(path@.subrange(0, n as int) =~= path@);
            }
            path.substring_char(0, n).to_owned()
        }
    } else if first_label_is(host, www) {
        final_segment(path)
    } else {
        return None;
    };
    if id.as_str().unicode_len() == 0 {
        None
    } else {
        Some(id)
    }
}

} // verus!
