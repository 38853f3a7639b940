use vstd::prelude::*;
use vstd::string::*;
use vstd::utf8::is_ascii_chars;

use crate::pusher::{Event, EventView};
use crate::reference::{ascii_bytes, spells};
use crate::step::{Action, BlobKind};

verus! {

/// `end` is where the path of the URL `s` ends: at its first `?`, or at
/// the end of `s` if it has none.
pub open spec fn is_path_end(s: Seq<char>, end: int) -> bool {
    &&& 0 <= end <= s.len()
    &&& end < s.len() ==> s[end] == '?'
    &&& forall|i: int| 0 <= i < end ==> s[i] != '?'
}

/// `start` is where the last segment of the path `s[..end]` starts: after
/// its last `/`, or at zero if it has none.
pub open spec fn is_segment_start(s: Seq<char>, start: int, end: int) -> bool {
    &&& 0 <= start <= end
    &&& start > 0 ==> s[start - 1] == '/'
    &&& forall|i: int| start <= i < end ==> s[i] != '/'
}

/// The digest that the location of an uploaded blob names: the last
/// segment of the URL's path, which for a blob is `.../blobs/<digest>`. A
/// location with a character outside ASCII names none.
pub open spec fn reported_digest(location: Seq<char>) -> Seq<char> {
    if is_ascii_chars(location) {
        let end = choose|end: int| is_path_end(location, end);
        let start = choose|start: int| is_segment_start(location, start, end);
        location.subrange(start, end)
    } else {
        Seq::empty()
    }
}

/// The HTTP status that stands for a refused credential where the
/// transport reports the refusal without a status.
pub const UNAUTHORIZED: u16 = 401;

/// What the refusal of a request with an HTTP status means for the push.
///
/// Any refusal of the manifest is a rejected manifest. A 401 or 403 to
/// any other request is a rejected credential. Every other refusal counts
/// as a failure of the request.
pub open spec fn refusal(action: Action, status: u16, message: Seq<char>) -> EventView {
    if action == Action::PutManifest {
        EventView::ManifestRejected { status }
    } else if status == 401 || status == 403 {
        EventView::AuthRejected { during: action, status }
    } else {
        EventView::TransportFailed { during: action, message }
    }
}

/// What it means for the push that a request failed for want of
/// authorisation, with no status given: the same as a refusal with
/// [`UNAUTHORIZED`].
pub open spec fn denial(action: Action, message: Seq<char>) -> EventView {
    refusal(action, UNAUTHORIZED, message)
}

/// The digest that the location of an uploaded blob names.
pub fn digest_reported_at(location: &str) -> (digest: String)
    ensures
        digest@ == reported_digest(location@),
{
    if !location.is_ascii() {
        return String::new();
    }
    let bytes = ascii_bytes(location);
    let ghost s = location@;
    let n = bytes.len();
    let mut end: usize = 0;
    while end < n && bytes[end] != 63
        invariant
            n == bytes@.len(),
            end <= n,
            spells(bytes@, s),
            forall|i: int| 0 <= i < end ==> s[i] != '?',
        decreases n - end,
    {
        end += 1;
    }
    let mut start: usize = end;
    while start > 0 && bytes[start - 1] != 47
        invariant
            start <= end <= n,
            n == bytes@.len(),
            spells(bytes@, s),
            forall|i: int| start <= i < end ==> s[i] != '/',
        decreases start,
    {
        start -= 1;
    }
    proof {
        assert(is_path_end(s, end as int));
        let e = choose|e: int| is_path_end(s, e);
        assert(e == end) by {
            if e < end {
                assert(s[e] != '?');
            } else if end < e {
                assert(s[end as int] == '?');
            }
        }
        assert(is_segment_start(s, start as int, end as int));
        let b = choose|b: int| is_segment_start(s, b, end as int);
        assert(b == start) by {
            if b < start {
                assert(s[start - 1] == '/');
            } else if start < b {
                assert(s[b - 1] == '/');
            }
        }
    }
    String::from_str(location.substring_ascii(start, end))
}

impl Event {
    /// The event of an upload that the registry took and filed at
    /// `location`.
    pub fn uploaded(kind: BlobKind, location: &str) -> (event: Event)
        ensures
            event@ == (EventView::BlobUploaded { kind, digest: reported_digest(location@) }),
    {
        Event::BlobUploaded { kind, digest: digest_reported_at(location) }
    }

    /// The event of a request that the registry refused with an HTTP
    /// status.
    pub fn refused(action: Action, status: u16, message: String) -> (event: Event)
        ensures
            event@ == refusal(action, status, message@),
    {
        match action {
            Action::PutManifest => Event::ManifestRejected { status },
            _ => {
                if status == 401 || status == 403 {
                    Event::AuthRejected { during: action, status }
                } else {
                    Event::TransportFailed { during: action, message }
                }
            },
        }
    }

    /// The event of a request that failed for want of authorisation, where
    /// the transport gives no HTTP status.
    pub fn denied(action: Action, message: String) -> (event: Event)
        ensures
            event@ == denial(action, message@),
    {
        Event::refused(action, UNAUTHORIZED, message)
    }
}

/// A refusal answers the request that was refused.
pub proof fn lemma_refusal_answers(action: Action, status: u16, message: Seq<char>)
    ensures
        refusal(action, status, message).answers() == action,
{
}

} // verus!
