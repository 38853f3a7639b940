use vstd::multiset::Multiset;
use vstd::prelude::*;
use vstd::relations::{sorted_by, total_ordering};
use vstd::seq_lib::{lemma_sorted_unique, to_multiset_build, to_multiset_insert};
use vstd::string::*;
use vstd::utf8::{decode_utf8, encode_utf8, encode_utf8_decode_utf8};

verus! {

/// The architecture that every Wasm artifact declares.
pub const ARCHITECTURE: &'static str = "wasm";

/// The operating system that a Wasm component declares.
pub const COMPONENT_OS: &'static str = "wasip2";

/// The texts of a list.
pub open spec fn texts_of(list: Seq<String>) -> Seq<Seq<char>> {
    Seq::new(list.len(), |i: int| list[i]@)
}

/// `a` comes before `b`, or is `b`, in the order of a dictionary over bytes.
pub open spec fn comes_before(a: Seq<u8>, b: Seq<u8>) -> bool
    decreases a.len(),
{
    if a.len() == 0 {
        true
    } else if b.len() == 0 {
        false
    } else if a[0] != b[0] {
        a[0] < b[0]
    } else {
        comes_before(a.drop_first(), b.drop_first())
    }
}

/// The order in which a description lists names: that of a dictionary
/// over the bytes of their UTF-8.
pub open spec fn by_bytes() -> spec_fn(Seq<char>, Seq<char>) -> bool {
    |a: Seq<char>, b: Seq<char>| comes_before(encode_utf8(a), encode_utf8(b))
}

/// The names of a collection in the order of a description: the one
/// sorted sequence that holds each name as often as the collection does.
pub open spec fn in_order(names: Multiset<Seq<char>>) -> Seq<Seq<char>> {
    choose|list: Seq<Seq<char>>| sorted_by(list, by_bytes()) && list.to_multiset() == names
}

/// What the inspection of a component found: the names of its imports and
/// of its exports, in the order in which it found them.
#[derive(Clone, Debug, PartialEq, Eq)]
pub struct ComponentListing {
    pub imports: Vec<String>,
    pub exports: Vec<String>,
}

/// What a listing is: two sequences of names.
pub struct ListingView {
    pub imports: Seq<Seq<char>>,
    pub exports: Seq<Seq<char>>,
}

impl View for ComponentListing {
    type V = ListingView;

    open spec fn view(&self) -> ListingView {
        ListingView { imports: texts_of(self.imports@), exports: texts_of(self.exports@) }
    }
}

/// What a description is: architecture, operating system, the digest of
/// the one layer, and the names of the exports and of the imports.
pub struct DescriptionView {
    pub architecture: Seq<char>,
    pub os: Seq<char>,
    pub layer_digest: Seq<char>,
    pub exports: Seq<Seq<char>>,
    pub imports: Seq<Seq<char>>,
}

/// What the manifest config says of a Wasm component.
#[derive(Clone, Debug, PartialEq, Eq)]
pub struct ComponentDescription {
    pub architecture: String,
    pub os: String,
    /// The digest of the content layer.
    pub layer_digest: String,
    pub exports: Vec<String>,
    pub imports: Vec<String>,
}

impl View for ComponentDescription {
    type V = DescriptionView;

    open spec fn view(&self) -> DescriptionView {
        DescriptionView {
            architecture: self.architecture@,
            os: self.os@,
            layer_digest: self.layer_digest@,
            exports: texts_of(self.exports@),
            imports: texts_of(self.imports@),
        }
    }
}

/// The description of the component whose layer has the digest
/// `layer_digest` and whose interface holds the names of `listing`: the
/// names stand in the order of a description, whatever their order in the
/// listing.
pub open spec fn description_with(layer_digest: Seq<char>, listing: ListingView) -> DescriptionView {
    DescriptionView {
        architecture: ARCHITECTURE@,
        os: COMPONENT_OS@,
        layer_digest,
        exports: in_order(listing.exports.to_multiset()),
        imports: in_order(listing.imports.to_multiset()),
    }
}

/// The description as the config of a Wasm artifact holds it: JSON with
/// the creation time, which is always the start of the epoch, no author,
/// the architecture, the operating system, the layer digest, and the
/// component with its exports, its imports and no target.
pub uninterp spec fn description_encoding(description: DescriptionView) -> Seq<u8>;

/// Copies `description` into an `oci_wasm::WasmConfig`, field by field,
/// with the default creation time, no author and no target, and calls
/// `oci_wasm::ToConfig::to_config`, which writes the config as JSON with
/// `serde_json`. The contract gives the bytes a name. The call has no
/// failing path for such a value; were it to fail, the bytes are empty.
#[verifier::external_body]
fn encode_description(description: &ComponentDescription) -> (bytes: Vec<u8>)
    ensures
        bytes@ == description_encoding(description@),
{
    let config = oci_wasm::WasmConfig {
        created: Default::default(),
        author: None,
        architecture: description.architecture.clone(),
        os: description.os.clone(),
        layer_digests: vec![description.layer_digest.clone()],
        component: Some(oci_wasm::Component {
            exports: description.exports.clone(),
            imports: description.imports.clone(),
            target: None,
        }),
    };
    oci_wasm::ToConfig::to_config(&config).map(|encoded| encoded.data.to_vec()).unwrap_or_default()
}

proof fn lemma_before_reflexive(a: Seq<u8>)
    ensures
        comes_before(a, a),
    decreases a.len(),
{
    if a.len() > 0 {
        lemma_before_reflexive(a.drop_first());
    }
}

proof fn lemma_before_antisymmetric(a: Seq<u8>, b: Seq<u8>)
    requires
        comes_before(a, b),
        comes_before(b, a),
    ensures
        a == b,
    decreases a.len(),
{
    if a.len() == 0 {
        assert(a =~= b);
    } else {
        lemma_before_antisymmetric(a.drop_first(), b.drop_first());
        assert(a =~= seq![a[0]] + a.drop_first());
        assert(b =~= seq![b[0]] + b.drop_first());
    }
}

proof fn lemma_before_transitive(a: Seq<u8>, b: Seq<u8>, c: Seq<u8>)
    requires
        comes_before(a, b),
        comes_before(b, c),
    ensures
        comes_before(a, c),
    decreases a.len(),
{
    if a.len() > 0 && a[0] == b[0] && b[0] == c[0] {
        lemma_before_transitive(a.drop_first(), b.drop_first(), c.drop_first());
    }
}

proof fn lemma_before_total(a: Seq<u8>, b: Seq<u8>)
    ensures
        comes_before(a, b) || comes_before(b, a),
    decreases a.len(),
{
    if a.len() > 0 && b.len() > 0 && a[0] == b[0] {
        lemma_before_total(a.drop_first(), b.drop_first());
    }
}

/// The order of a description is a total order.
pub proof fn lemma_by_bytes_is_total(leq: spec_fn(Seq<char>, Seq<char>) -> bool)
    requires
        leq == by_bytes(),
    ensures
        total_ordering(leq),
{
    assert forall|x: Seq<char>| #[trigger] leq(x, x) by {
        lemma_before_reflexive(encode_utf8(x));
    }
    assert forall|x: Seq<char>, y: Seq<char>| #[trigger] leq(x, y) && #[trigger] leq(y, x) implies x
        == y by {
        lemma_before_antisymmetric(encode_utf8(x), encode_utf8(y));
        encode_utf8_decode_utf8(x);
        encode_utf8_decode_utf8(y);
        assert(decode_utf8(encode_utf8(x)) == decode_utf8(encode_utf8(y)));
    }
    assert forall|x: Seq<char>, y: Seq<char>, z: Seq<char>| #[trigger]
        leq(x, y) && #[trigger] leq(y, z) implies leq(x, z) by {
        lemma_before_transitive(encode_utf8(x), encode_utf8(y), encode_utf8(z));
    }
    assert forall|x: Seq<char>, y: Seq<char>| #[trigger] leq(x, y) || #[trigger] leq(y, x) by {
        lemma_before_total(encode_utf8(x), encode_utf8(y));
    }
}

/// A sorted list is the list in order of the names it holds.
pub proof fn lemma_sorted_is_in_order(list: Seq<Seq<char>>)
    requires
        sorted_by(list, by_bytes()),
    ensures
        list == in_order(list.to_multiset()),
{
    let other = in_order(list.to_multiset());
    lemma_by_bytes_is_total(by_bytes());
    lemma_sorted_unique(list, other, by_bytes());
}

/// Whether `a` comes before `b`, or is `b`.
fn precedes(a: &String, b: &String) -> (r: bool)
    ensures
        r == comes_before(encode_utf8(a@), encode_utf8(b@)),
{
    let x = a.as_str().as_bytes();
    let y = b.as_str().as_bytes();
    let mut i: usize = 0;
    assert(x@.skip(0) =~= x@ && y@.skip(0) =~= y@);
    while i < x.len() && i < y.len() && x[i] == y[i]
        invariant
            i <= x.len(),
            i <= y.len(),
            comes_before(x@, y@) == comes_before(x@.skip(i as int), y@.skip(i as int)),
        decreases x.len() - i,
    {
        proof {
            assert(x@.skip(i as int).drop_first() =~= x@.skip(i + 1));
            assert(y@.skip(i as int).drop_first() =~= y@.skip(i + 1));
        }
        i += 1;
    }
    if i == x.len() {
        true
    } else if i == y.len() {
        false
    } else {
        x[i] < y[i]
    }
}

/// A list without names holds no name.
proof fn lemma_no_names(list: Seq<Seq<char>>)
    requires
        list.len() == 0,
    ensures
        list.to_multiset() =~= Multiset::empty(),
{
    list.to_multiset_ensures();
    assert forall|name: Seq<char>| list.to_multiset().count(name) == 0 by {
        assert(!list.contains(name));
    }
}

/// Puts names in the order of a description.
pub fn arrange(names: Vec<String>) -> (sorted: Vec<String>)
    ensures
        texts_of(sorted@) == in_order(texts_of(names@).to_multiset()),
        sorted_by(texts_of(sorted@), by_bytes()),
        texts_of(sorted@).to_multiset() == texts_of(names@).to_multiset(),
{
    let ghost all = texts_of(names@).to_multiset();
    let ghost leq = by_bytes();
    let mut rest = names;
    let mut sorted: Vec<String> = Vec::new();
    proof {
        lemma_by_bytes_is_total(leq);
        lemma_no_names(texts_of(sorted@));
    }
    while rest.len() > 0
        invariant
            leq == by_bytes(),
            total_ordering(leq),
            sorted_by(texts_of(sorted@), leq),
            texts_of(sorted@).to_multiset().add(texts_of(rest@).to_multiset()) =~= all,
        decreases rest.len(),
    {
        let ghost rest_before = texts_of(rest@);
        let name = rest.pop().unwrap();
        proof {
            assert(rest_before =~= texts_of(rest@).push(name@));
            to_multiset_build(texts_of(rest@), name@);
        }
        let mut at: usize = 0;
        while at < sorted.len() && precedes(&sorted[at], &name)
            invariant
                at <= sorted.len(),
                forall|k: int| 0 <= k < at ==> leq(#[trigger] texts_of(sorted@)[k], name@),
                leq == by_bytes(),
            decreases sorted.len() - at,
        {
            at += 1;
        }
        let ghost before = texts_of(sorted@);
        sorted.insert(at, name);
        proof {
            let after = texts_of(sorted@);
            assert(after =~= before.insert(at as int, name@));
            to_multiset_insert(before, at as int, name@);
            assert forall|i: int, j: int| 0 <= i < j < after.len() implies #[trigger] leq(
                after[i],
                after[j],
            ) by {
                if j < at {
                    assert(leq(before[i], before[j]));
                } else if j == at {
                    assert(leq(before[i], name@));
                } else if i < at {
                    assert(leq(before[i], before[j - 1]));
                } else if i == at {
                    assert(leq(before[at as int], name@) || leq(name@, before[at as int]));
                    if j - 1 > at {
                        assert(leq(before[at as int], before[j - 1]));
                    }
                } else {
                    assert(leq(before[i - 1], before[j - 1]));
                }
            }
        }
    }
    proof {
        lemma_no_names(texts_of(rest@));
        assert(texts_of(sorted@).to_multiset() =~= all);
        lemma_sorted_is_in_order(texts_of(sorted@));
    }
    sorted
}

impl ComponentDescription {
    /// The description of the component whose layer has the digest
    /// `layer_digest` and whose interface holds the names of `listing`, in
    /// whatever order they are listed.
    pub fn of(layer_digest: String, listing: ComponentListing) -> (description:
        ComponentDescription)
        ensures
            description@ == description_with(layer_digest@, listing@),
    {
        ComponentDescription {
            architecture: String::from_str(ARCHITECTURE),
            os: String::from_str(COMPONENT_OS),
            layer_digest,
            exports: arrange(listing.exports),
            imports: arrange(listing.imports),
        }
    }

    /// The description as the bytes of a manifest config.
    pub fn encode(&self) -> (bytes: Vec<u8>)
        ensures
            bytes@ == description_encoding(self@),
    {
        encode_description(self)
    }
}

} // verus!
