use vstd::prelude::*;
use vstd::string::*;
use vstd::utf8::is_ascii_chars;

use crate::error::InvalidReferenceError;

verus! {

broadcast use vstd::string::group_string_axioms;

/// Longest tag a registry accepts, in characters.
pub const MAX_TAG_LEN: usize = 128;

/// A lower-case ASCII letter or an ASCII digit.
pub open spec fn is_lower_alnum(c: char) -> bool {
    ('a' <= c && c <= 'z') || ('0' <= c && c <= '9')
}

/// An ASCII letter of either case, an ASCII digit or an underscore.
pub open spec fn is_word(c: char) -> bool {
    is_lower_alnum(c) || ('A' <= c && c <= 'Z') || c == '_'
}

/// Whether position `i` of the path `s` obeys the path syntax.
///
/// A path is made of runs of lower-case letters and digits. Two runs are
/// joined by one `/`, one `.`, one or two `_`, or any number of `-`, so a
/// path neither starts nor ends with a joiner, and joiners of different
/// kinds never touch.
pub open spec fn path_legal_at(s: Seq<char>, i: int) -> bool
    recommends
        0 <= i < s.len(),
{
    let c = s[i];
    if is_lower_alnum(c) {
        true
    } else if !(0 < i && i + 1 < s.len()) {
        false
    } else {
        let before = s[i - 1];
        let after = s[i + 1];
        if c == '/' || c == '.' {
            is_lower_alnum(before) && is_lower_alnum(after)
        } else if c == '-' {
            (is_lower_alnum(before) || before == '-') && (is_lower_alnum(after) || after == '-')
        } else if c == '_' {
            (is_lower_alnum(before) && (is_lower_alnum(after) || after == '_')) || (before == '_'
                && is_lower_alnum(after))
        } else {
            false
        }
    }
}

/// A legal repository path: not empty, and legal at every position.
pub open spec fn is_repository_path(s: Seq<char>) -> bool {
    s.len() > 0 && forall|i: int| 0 <= i < s.len() ==> path_legal_at(s, i)
}

/// Whether position `i` of the tag `s` obeys the tag syntax: a tag starts
/// with a letter, a digit or `_`, and goes on with those, `.` and `-`.
pub open spec fn tag_legal_at(s: Seq<char>, i: int) -> bool
    recommends
        0 <= i < s.len(),
{
    is_word(s[i]) || (i > 0 && (s[i] == '.' || s[i] == '-'))
}

/// A legal tag: between one and `MAX_TAG_LEN` characters, legal at each.
pub open spec fn is_tag(s: Seq<char>) -> bool {
    0 < s.len() <= MAX_TAG_LEN && forall|i: int| 0 <= i < s.len() ==> tag_legal_at(s, i)
}

/// `at` is the first position at which the path `s` breaks the syntax.
pub open spec fn is_first_path_fault(s: Seq<char>, at: int) -> bool {
    &&& 0 <= at < s.len()
    &&& !path_legal_at(s, at)
    &&& forall|j: int| 0 <= j < at ==> path_legal_at(s, j)
}

/// `at` is the first position at which the tag `s` breaks the syntax.
pub open spec fn is_first_tag_fault(s: Seq<char>, at: int) -> bool {
    &&& 0 <= at < s.len()
    &&& !tag_legal_at(s, at)
    &&& forall|j: int| 0 <= j < at ==> tag_legal_at(s, j)
}

/// The path that a base repository and an artifact name compose.
pub open spec fn composed_path(repository: Seq<char>, name: Seq<char>) -> Seq<char> {
    repository + seq!['/'] + name
}

/// What a reference is: three strings.
pub struct ReferenceView {
    pub registry: Seq<char>,
    pub repository: Seq<char>,
    pub tag: Seq<char>,
}

impl ReferenceView {
    /// The invariant of a reference: a named registry, a legal path, a legal tag.
    pub open spec fn wf(self) -> bool {
        &&& self.registry.len() > 0
        &&& is_ascii_chars(self.repository)
        &&& is_repository_path(self.repository)
        &&& is_ascii_chars(self.tag)
        &&& is_tag(self.tag)
    }

    /// The reference written in one piece, `registry/repository:tag`.
    pub open spec fn whole(self) -> Seq<char> {
        self.registry + seq!['/'] + self.repository + seq![':'] + self.tag
    }
}

/// The first reason, if any, for which the four inputs make no reference.
pub open spec fn reference_fault(
    registry: Seq<char>,
    repository: Seq<char>,
    name: Seq<char>,
    tag: Seq<char>,
) -> Option<InvalidReferenceError> {
    let path = composed_path(repository, name);
    if registry.len() == 0 {
        Some(InvalidReferenceError::EmptyRegistry)
    } else if repository.len() == 0 {
        Some(InvalidReferenceError::EmptyRepository)
    } else if name.len() == 0 {
        Some(InvalidReferenceError::EmptyName)
    } else if tag.len() == 0 {
        Some(InvalidReferenceError::EmptyTag)
    } else if !is_ascii_chars(path) {
        Some(InvalidReferenceError::RepositoryNotAscii)
    } else if !is_repository_path(path) {
        Some(
            InvalidReferenceError::RepositorySyntax {
                at: (choose|at: int| is_first_path_fault(path, at)) as usize,
            },
        )
    } else if !is_ascii_chars(tag) {
        Some(InvalidReferenceError::TagNotAscii)
    } else if tag.len() > MAX_TAG_LEN {
        Some(InvalidReferenceError::TagTooLong { len: tag.len() as usize })
    } else if !is_tag(tag) {
        Some(
            InvalidReferenceError::TagSyntax {
                at: (choose|at: int| is_first_tag_fault(tag, at)) as usize,
            },
        )
    } else {
        None
    }
}

/// The push target: a registry host, a repository path and a tag. It is
/// made by [`ReferenceBuilder::build`] alone and never changes afterwards.
#[derive(Debug, PartialEq, Eq)]
pub struct Reference {
    registry: String,
    repository: String,
    tag: String,
}

impl View for Reference {
    type V = ReferenceView;

    closed spec fn view(&self) -> ReferenceView {
        ReferenceView { registry: self.registry@, repository: self.repository@, tag: self.tag@ }
    }
}

impl Reference {
    #[verifier::type_invariant]
    spec fn well_formed(self) -> bool {
        self@.wf()
    }

    /// The registry host.
    pub fn registry(&self) -> (r: &str)
        ensures
            r@ == self@.registry,
            self@.wf(),
    {
        proof {
            use_type_invariant(self);
        }
        self.registry.as_str()
    }

    /// The repository path, base repository and artifact name joined by `/`.
    pub fn repository(&self) -> (r: &str)
        ensures
            r@ == self@.repository,
            self@.wf(),
    {
        proof {
            use_type_invariant(self);
        }
        self.repository.as_str()
    }

    /// The tag.
    pub fn tag(&self) -> (r: &str)
        ensures
            r@ == self@.tag,
            self@.wf(),
    {
        proof {
            use_type_invariant(self);
        }
        self.tag.as_str()
    }

    /// The reference in one piece, `registry/repository:tag`.
    pub fn whole(&self) -> (s: String)
        ensures
            s@ == self@.whole(),
    {
        proof {
            reveal_strlit("/");
            reveal_strlit(":");
        }
        let s = String::from_str(self.registry.as_str()).concat("/").concat(
            self.repository.as_str(),
        ).concat(":").concat(self.tag.as_str());
        assert("/"@ =~= seq!['/']);
        assert(":"@ =~= seq![':']);
        s
    }

    /// A second reference to the same target.
    pub fn duplicate(&self) -> (r: Reference)
        ensures
            r@ == self@,
    {
        proof {
            use_type_invariant(self);
        }
        Reference {
            registry: self.registry.clone(),
            repository: self.repository.clone(),
            tag: self.tag.clone(),
        }
    }
}

fn is_lower_alnum_byte(b: u8) -> (r: bool)
    ensures
        r == is_lower_alnum(b as char),
{
    (b >= 97 && b <= 122) || (b >= 48 && b <= 57)
}

fn is_word_byte(b: u8) -> (r: bool)
    ensures
        r == is_word(b as char),
{
    is_lower_alnum_byte(b) || (b >= 65 && b <= 90) || b == 95
}

/// The bytes of an ASCII string are its characters, one for one.
pub open spec fn spells(bytes: Seq<u8>, s: Seq<char>) -> bool {
    &&& bytes.len() == s.len()
    &&& forall|i: int| 0 <= i < s.len() ==> #[trigger] bytes[i] as char == s[i]
}

fn path_legal_at_byte(bytes: &[u8], i: usize, Ghost(s): Ghost<Seq<char>>) -> (r: bool)
    requires
        spells(bytes@, s),
        i < bytes@.len(),
    ensures
        r == path_legal_at(s, i as int),
{
    let c = bytes[i];
    if is_lower_alnum_byte(c) {
        true
    } else if i == 0 || i + 1 >= bytes.len() {
        false
    } else {
        let before = bytes[i - 1];
        let after = bytes[i + 1];
        if c == 47 || c == 46 {
            is_lower_alnum_byte(before) && is_lower_alnum_byte(after)
        } else if c == 45 {
            (is_lower_alnum_byte(before) || before == 45) && (is_lower_alnum_byte(after) || after
                == 45)
        } else if c == 95 {
            (is_lower_alnum_byte(before) && (is_lower_alnum_byte(after) || after == 95)) || (before
                == 95 && is_lower_alnum_byte(after))
        } else {
            false
        }
    }
}

fn find_path_fault(bytes: &[u8], Ghost(s): Ghost<Seq<char>>) -> (r: Option<usize>)
    requires
        spells(bytes@, s),
    ensures
        match r {
            Some(at) => is_first_path_fault(s, at as int),
            None => forall|i: int| 0 <= i < s.len() ==> path_legal_at(s, i),
        },
{
    let n = bytes.len();
    let mut i: usize = 0;
    while i < n
        invariant
            n == bytes@.len(),
            i <= n,
            spells(bytes@, s),
            forall|j: int| 0 <= j < i ==> path_legal_at(s, j),
        decreases n - i,
    {
        if !path_legal_at_byte(bytes, i, Ghost(s)) {
            return Some(i);
        }
        i += 1;
    }
    None
}

fn find_tag_fault(bytes: &[u8], Ghost(s): Ghost<Seq<char>>) -> (r: Option<usize>)
    requires
        spells(bytes@, s),
    ensures
        match r {
            Some(at) => is_first_tag_fault(s, at as int),
            None => forall|i: int| 0 <= i < s.len() ==> tag_legal_at(s, i),
        },
{
    let n = bytes.len();
    let mut i: usize = 0;
    while i < n
        invariant
            n == bytes@.len(),
            i <= n,
            spells(bytes@, s),
            forall|j: int| 0 <= j < i ==> tag_legal_at(s, j),
        decreases n - i,
    {
        let c = bytes[i];
        if !(is_word_byte(c) || (i > 0 && (c == 46 || c == 45))) {
            return Some(i);
        }
        i += 1;
    }
    None
}

/// The bytes of an ASCII string, with the guarantee that they spell it.
pub(crate) fn ascii_bytes(s: &str) -> (bytes: &[u8])
    requires
        is_ascii_chars(s@),
    ensures
        spells(bytes@, s@),
{
    let bytes = s.as_bytes();
    proof {
        is_ascii_spec_bytes(s);
        assert(is_ascii(s));
        assert forall|i: int| 0 <= i < s@.len() implies #[trigger] bytes@[i] as char == s@[i] by {
            assert(bytes@[i] == s@[i] as u8);
            assert('\0' <= s@[i] <= '\u{7f}');
        }
    }
    bytes
}

/// Builds references.
pub struct ReferenceBuilder;

impl ReferenceBuilder {
    /// Makes the reference to `registry/repository/name:tag`.
    ///
    /// The repository of the result is `repository`, a `/` and `name`, with
    /// nothing normalised, and its tag is `tag` as given. The inputs are
    /// refused with the first fault that [`reference_fault`] finds.
    pub fn build(registry: &str, repository: &str, name: &str, tag: &str) -> (result: Result<
        Reference,
        InvalidReferenceError,
    >)
        ensures
            match result {
                Ok(reference) => {
                    &&& reference_fault(registry@, repository@, name@, tag@) is None
                    &&& reference@.registry == registry@
                    &&& reference@.repository == composed_path(repository@, name@)
                    &&& reference@.tag == tag@
                    &&& reference@.wf()
                },
                Err(e) => reference_fault(registry@, repository@, name@, tag@) == Some(e),
            },
    {
        if registry.is_empty() {
            return Err(InvalidReferenceError::EmptyRegistry);
        }
        if repository.is_empty() {
            return Err(InvalidReferenceError::EmptyRepository);
        }
        if name.is_empty() {
            return Err(InvalidReferenceError::EmptyName);
        }
        if tag.is_empty() {
            return Err(InvalidReferenceError::EmptyTag);
        }
        proof {
            reveal_strlit("/");
        }
        let path = String::from_str(repository).concat("/").concat(name);
        assert(path@ =~= composed_path(repository@, name@));
        if !path.is_ascii() {
            return Err(InvalidReferenceError::RepositoryNotAscii);
        }
        let path_bytes = ascii_bytes(path.as_str());
        if let Some(at) = find_path_fault(path_bytes, Ghost(path@)) {
            proof {
                lemma_first_path_fault_unique(path@, at as int);
            }
            return Err(InvalidReferenceError::RepositorySyntax { at });
        }
        if !tag.is_ascii() {
            return Err(InvalidReferenceError::TagNotAscii);
        }
        let tag_bytes = ascii_bytes(tag);
        let len = tag_bytes.len();
        if len > MAX_TAG_LEN {
            return Err(InvalidReferenceError::TagTooLong { len });
        }
        if let Some(at) = find_tag_fault(tag_bytes, Ghost(tag@)) {
            proof {
                lemma_first_tag_fault_unique(tag@, at as int);
            }
            return Err(InvalidReferenceError::TagSyntax { at });
        }
        Ok(Reference { registry: String::from_str(registry), repository: path, tag: String::from_str(tag) })
    }
}

/// A path has at most one first fault.
proof fn lemma_first_path_fault_unique(s: Seq<char>, at: int)
    requires
        is_first_path_fault(s, at),
    ensures
        !is_repository_path(s),
        (choose|i: int| is_first_path_fault(s, i)) == at,
{
    let i = choose|i: int| is_first_path_fault(s, i);
    if i < at {
        assert(path_legal_at(s, i));
    } else if at < i {
        assert(path_legal_at(s, at));
    }
}

/// A tag has at most one first fault.
proof fn lemma_first_tag_fault_unique(s: Seq<char>, at: int)
    requires
        is_first_tag_fault(s, at),
    ensures
        !(forall|i: int| 0 <= i < s.len() ==> tag_legal_at(s, i)),
        (choose|i: int| is_first_tag_fault(s, i)) == at,
{
    let i = choose|i: int| is_first_tag_fault(s, i);
    if i < at {
        assert(tag_legal_at(s, i));
    } else if at < i {
        assert(tag_legal_at(s, at));
    }
}

/// A composed path is legal exactly when the base repository and the
/// artifact name are legal paths themselves.
pub proof fn lemma_composed_path_legal(repository: Seq<char>, name: Seq<char>)
    ensures
        is_repository_path(composed_path(repository, name)) <==> is_repository_path(repository)
            && is_repository_path(name),
{
    let path = composed_path(repository, name);
    let r = repository.len() as int;
    assert(path.len() == r + 1 + name.len());
    assert(path[r] == '/');
    assert forall|i: int| 0 <= i < r implies path[i] == repository[i] by {}
    assert forall|j: int| 0 <= j < name.len() implies path[r + 1 + j] == name[j] by {}
    if is_repository_path(repository) && is_repository_path(name) {
        assert(path_legal_at(repository, r - 1));
        assert(path_legal_at(name, 0));
        assert forall|i: int| 0 <= i < path.len() implies path_legal_at(path, i) by {
            if i < r {
                assert(path_legal_at(repository, i));
                if i > 0 {
                    assert(path[i - 1] == repository[i - 1]);
                }
                if i + 1 < r {
                    assert(path[i + 1] == repository[i + 1]);
                }
            } else if i > r {
                let j = i - r - 1;
                assert(path_legal_at(name, j));
                assert(path[i] == name[j]);
                if j > 0 {
                    assert(path[r + 1 + (j - 1)] == name[j - 1]);
                }
                if j + 1 < name.len() {
                    assert(path[r + 1 + (j + 1)] == name[j + 1]);
                }
            }
        }
    }
    if is_repository_path(path) {
        assert(path_legal_at(path, r));
        assert(r > 0 && name.len() > 0);
        assert(path[r - 1] == repository[r - 1]);
        assert(path[r + 1 + 0] == name[0]);
        assert forall|i: int| 0 <= i < r implies path_legal_at(repository, i) by {
            assert(path_legal_at(path, i));
            if i > 0 {
                assert(path[i - 1] == repository[i - 1]);
            }
            if i + 1 < r {
                assert(path[i + 1] == repository[i + 1]);
            }
        }
        assert forall|j: int| 0 <= j < name.len() implies path_legal_at(name, j) by {
            assert(path_legal_at(path, r + 1 + j));
            assert(path[r + 1 + j] == name[j]);
            if j > 0 {
                assert(path[r + 1 + (j - 1)] == name[j - 1]);
            }
            if j + 1 < name.len() {
                assert(path[r + 1 + (j + 1)] == name[j + 1]);
            }
        }
    }
}

/// The inputs that make a reference: a registry that is not empty, a base
/// repository and an artifact name that are legal paths, and a legal tag.
pub proof fn lemma_valid_inputs(
    registry: Seq<char>,
    repository: Seq<char>,
    name: Seq<char>,
    tag: Seq<char>,
)
    ensures
        reference_fault(registry, repository, name, tag) is None <==> {
            &&& registry.len() > 0
            &&& is_repository_path(repository)
            &&& is_repository_path(name)
            &&& is_tag(tag)
        },
{
    let path = composed_path(repository, name);
    lemma_composed_path_legal(repository, name);
    if is_repository_path(path) {
        assert forall|i: int| 0 <= i < path.len() implies '\0' <= #[trigger] path[i]
            <= '\u{7f}' by {
            assert(path_legal_at(path, i));
        }
    }
    if is_tag(tag) {
        assert forall|i: int| 0 <= i < tag.len() implies '\0' <= #[trigger] tag[i] <= '\u{7f}' by {
            assert(tag_legal_at(tag, i));
        }
    }
}

} // verus!
