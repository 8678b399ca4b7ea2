//! Small string utilities shared across the engine.

use vstd::prelude::*;
use vstd::string::StrSliceExecFns;
use vstd::string::StringExecFns;

verus! {

/// Relies on std's `String::push`: appends exactly one character.
#[verifier::external_body]
pub(crate) fn push_char(s: &mut String, c: char)
    ensures
        final(s)@ == old(s)@ + seq![c],
{
    s.push(c);
}

/// Character-wise string equality.
pub fn str_eq(a: &str, b: &str) -> (r: bool)
    ensures
        r == (a@ == b@),
{
    let na = a.unicode_len();
    let nb = b.unicode_len();
    if na != nb {
        return false;
    }
    let mut i: usize = 0;
    while i < na
        invariant
            na == a@.len(),
            na == b@.len(),
            i <= na,
            forall|j: int| 0 <= j < i ==> a@[j] == b@[j],
        decreases na - i,
    {
        if a.get_char(i) != b.get_char(i) {
            return false;
        }
        i = i + 1;
    }
    proof {
        assert(a@ =~= b@);
    }
    true
}

/// The replacement that HTML escaping makes for one character.
pub open spec fn escape_html_char(c: char) -> Seq<char> {
    if c == '&' {
        "&amp;"@
    } else if c == '<' {
        "&lt;"@
    } else if c == '>' {
        "&gt;"@
    } else {
        seq![c]
    }
}

/// HTML escaping of a whole string, character by character.
pub open spec fn escape_html_spec(s: Seq<char>) -> Seq<char>
    decreases s.len(),
{
    if s.len() == 0 {
        Seq::empty()
    } else {
        escape_html_char(s[0]) + escape_html_spec(s.drop_first())
    }
}

/// Escapes `&`, `<` and `>` for embedding a string into HTML.
pub fn escape_html(s: &str) -> (r: String)
    ensures
        r@ == escape_html_spec(s@),
{
    let n = s.unicode_len();
    let mut out = String::new();
    proof {
        assert(s@.skip(0) == s@);
    }
    let mut i: usize = 0;
    while i < n
        invariant
            n == s@.len(),
            i <= n,
            escape_html_spec(s@) =~= out@ + escape_html_spec(s@.skip(i as int)),
        decreases n - i,
    {
        let c = s.get_char(i);
        proof {
            assert(s@.skip(i as int).drop_first() == s@.skip(i + 1));
            assert(s@.skip(i as int)[0] == s@[i as int]);
        }
        if c == '&' {
            out.append("&amp;");
        } else if c == '<' {
            out.append("&lt;");
        } else if c == '>' {
            out.append("&gt;");
        } else {
            push_char(&mut out, c);
        }
        i = i + 1;
    }
    proof {
        assert(s@.skip(n as int) =~= Seq::<char>::empty());
        assert(escape_html_spec(s@) =~= out@);
    }
    out
}

/// The server part of a Matrix identifier such as `@user:server` or
/// `!room:server`: everything after the first `:`.  An identifier without a
/// `:` has no server part.
pub open spec fn spec_server_of(id: Seq<char>) -> Option<Seq<char>>
    decreases id.len(),
{
    if id.len() == 0 {
        None
    } else if id[0] == ':' {
        Some(id.drop_first())
    } else {
        spec_server_of(id.drop_first())
    }
}

/// Extracts the server name from a Matrix identifier.
pub fn server_of(id: &str) -> (r: Option<String>)
    ensures
        match r {
            Some(s) => Some(s@) == spec_server_of(id@),
            None => spec_server_of(id@) is None,
        },
{
    let n = id.unicode_len();
    proof {
        assert(id@.skip(0) =~= id@);
    }
    let mut i: usize = 0;
    while i < n
        invariant
            n == id@.len(),
            i <= n,
            spec_server_of(id@) == spec_server_of(id@.skip(i as int)),
            forall|j: int| 0 <= j < i ==> id@[j] != ':',
        decreases n - i,
    {
        let c = id.get_char(i);
        proof {
            assert(id@.skip(i as int)[0] == id@[i as int]);
            assert(id@.skip(i as int).drop_first() == id@.skip(i + 1));
        }
        if c == ':' {
            let mut out = String::new();
            let mut k: usize = i + 1;
            while k < n
                invariant
                    n == id@.len(),
                    i + 1 <= k <= n,
                    out@ =~= id@.subrange(i + 1, k as int),
                decreases n - k,
            {
                push_char(&mut out, id.get_char(k));
                k = k + 1;
            }
            proof {
                assert(out@ =~= id@.skip(i as int).drop_first());
            }
            return Some(out);
        }
        i = i + 1;
    }
    proof {
        assert(id@.skip(n as int) =~= Seq::<char>::empty());
    }
    None
}

/// A room summary as the admin interface shows it: the room's id, its joined
/// count (zero when unknown) and its name (the id itself when it has none).
pub struct RoomInfo {
    pub room_id: String,
    pub joined_count: u64,
    pub name: String,
}

/// Combines the storage reads for one room into its summary line.
pub fn get_room_info(id: &str, joined_count: Option<u64>, name: Option<String>) -> (r: RoomInfo)
    ensures
        r.room_id@ == id@,
        r.joined_count == joined_count.unwrap_or(0),
        match name {
            Some(n) => r.name@ == n@,
            None => r.name@ == id@,
        },
{
    let joined = match joined_count {
        Some(c) => c,
        None => 0,
    };
    let name = match name {
        Some(n) => n,
        None => String::from_str(id),
    };
    RoomInfo { room_id: String::from_str(id), joined_count: joined, name }
}

/// The views of a sequence of strings.
pub open spec fn seq_views(s: Seq<String>) -> Seq<Seq<char>> {
    s.map_values(|x: String| x@)
}

/// Appends every string of one vector onto another.
pub fn extend_strings(acc: &mut Vec<String>, more: &Vec<String>)
    ensures
        seq_views(final(acc)@) == seq_views(old(acc)@) + seq_views(more@),
{
    let n = more.len();
    proof {
        assert(seq_views(acc@) =~= seq_views(old(acc)@) + seq_views(more@).take(0));
    }
    let mut i: usize = 0;
    while i < n
        invariant
            n == more@.len(),
            i <= n,
            seq_views(acc@) =~= seq_views(old(acc)@) + seq_views(more@).take(i as int),
        decreases n - i,
    {
        let ghost prev = seq_views(acc@);
        acc.push(String::from_str(more[i].as_str()));
        proof {
            assert(seq_views(acc@) =~= prev.push(acc@.last()@));
            assert(seq_views(acc@) =~= seq_views(old(acc)@) + seq_views(more@).take(i + 1));
        }
        i = i + 1;
    }
    proof {
        assert(seq_views(more@).take(n as int) =~= seq_views(more@));
    }
}

} // verus!
