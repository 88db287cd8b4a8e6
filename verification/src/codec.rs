use vstd::prelude::*;

use core::marker::PhantomData;

use crate::errors::{mismatch_message, ParseError};
use crate::registry::{kind_from_label, label_for, MarkerKind};

verus! {

/// A record whose static type carries a marker kind `K`. The kind occupies
/// no runtime storage; the payload is the one data field.
#[derive(Debug, PartialEq, Eq)]
pub struct Video<K> {
    /// Type-level reference to the marker kind; zero-sized.
    pub kind: PhantomData<K>,
    /// The record's payload.
    pub name: String,
}

impl<K> View for Video<K> {
    type V = Seq<char>;

    open spec fn view(&self) -> Seq<char> {
        self.name@
    }
}

impl<K> Video<K> {
    /// A record of kind `K` holding the given payload.
    pub fn new(name: String) -> (v: Video<K>)
        ensures
            v@ == name@,
    {
        Video { kind: PhantomData, name }
    }
}

/// The structured wire form: a transient view with exactly two named
/// string fields, produced by `encode` and consumed by `decode`.
#[derive(Debug, PartialEq, Eq, Clone)]
pub struct EncodedForm {
    /// The canonical label of the record's kind.
    pub tag: String,
    /// The record's payload, passed through verbatim.
    pub name: String,
}

/// The mathematical model of an `EncodedForm`.
pub struct FormModel {
    pub tag: Seq<char>,
    pub name: Seq<char>,
}

/// The model holding the given tag and payload.
pub open spec fn form_model(tag: Seq<char>, name: Seq<char>) -> FormModel {
    FormModel { tag, name }
}

impl View for EncodedForm {
    type V = FormModel;

    open spec fn view(&self) -> FormModel {
        form_model(self.tag@, self.name@)
    }
}

/// What encoding a record of kind `K` with the given payload produces:
/// the kind's canonical label beside the payload, unchanged.
pub open spec fn spec_encode<K: MarkerKind>(name: Seq<char>) -> FormModel {
    form_model(K::spec_label(), name)
}

/// What decoding a form as kind `K` yields: the payload when the tag
/// equals `K`'s canonical label, and nothing otherwise.
pub open spec fn spec_decode<K: MarkerKind>(form: FormModel) -> Option<Seq<char>> {
    if form.tag == K::spec_label() {
        Some(form.name)
    } else {
        None
    }
}

/// Encodes a record as its structured wire form. Deterministic, never
/// fails; the emitted tag is `K`'s canonical label, independent of the
/// payload.
pub fn encode<K: MarkerKind>(record: &Video<K>) -> (r: EncodedForm)
    ensures
        r@ == spec_encode::<K>(record@),
{
    EncodedForm { tag: label_for::<K>(), name: record.name.clone() }
}

/// Decodes a structured form as a record of the statically expected kind
/// `K`. Succeeds exactly when the form's tag equals `K`'s canonical label,
/// reconstructing the record from the payload alone; any other tag is
/// rejected with a `ParseError`.
pub fn decode<K: MarkerKind>(form: EncodedForm) -> (r: Result<Video<K>, ParseError>)
    ensures
        r is Ok <==> spec_decode::<K>(form@) is Some,
        r matches Ok(v) ==> spec_decode::<K>(form@) == Some(v@),
        r matches Err(e) ==> e@ == mismatch_message(),
{
    match kind_from_label::<K>(form.tag.as_str()) {
        Ok(()) => Ok(Video::new(form.name)),
        Err(e) => Err(e),
    }
}

/// Round trip: decoding an encoded record with the same kind yields the
/// original payload, for every kind `K` and every payload.
pub proof fn lemma_round_trip<K: MarkerKind>(name: Seq<char>)
    ensures
        spec_decode::<K>(spec_encode::<K>(name)) == Some(name),
{
}

/// Tag correctness: the encoded tag is `K`'s canonical label, whatever
/// the payload is.
pub proof fn lemma_tag_correctness<K: MarkerKind>(name: Seq<char>, other: Seq<char>)
    ensures
        spec_encode::<K>(name).tag == K::spec_label(),
        spec_encode::<K>(name).tag == spec_encode::<K>(other).tag,
{
}

/// Mismatch rejection: a form carrying the label of a kind other than the
/// expected one is rejected. Distinct kinds carry distinct labels, so the
/// premise holds of every pair of distinct registered kinds.
pub proof fn lemma_mismatch_rejection<K1: MarkerKind, K2: MarkerKind>(name: Seq<char>)
    requires
        K1::spec_label() != K2::spec_label(),
    ensures
        spec_decode::<K1>(spec_encode::<K2>(name)) is None,
{
}

/// Arbitrary-tag rejection: a form whose tag is not `K`'s canonical label
/// — in particular one no registered kind owns — is rejected.
pub proof fn lemma_unknown_tag_rejection<K: MarkerKind>(tag: Seq<char>, name: Seq<char>)
    requires
        tag != K::spec_label(),
    ensures
        spec_decode::<K>(form_model(tag, name)) is None,
{
}

} // verus!
