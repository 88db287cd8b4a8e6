use vstd::prelude::*;

use crate::errors::{mismatch_message, ParseError};

verus! {

/// A marker kind: a compile-time-only identity with a canonical string
/// label. The set of kinds is closed at build time, each kind owns exactly
/// one non-empty label, and no two kinds share a label.
pub trait MarkerKind: Sized {
    /// The canonical label, as a mathematical sequence of characters.
    spec fn spec_label() -> Seq<char>;

    /// The canonical label, as an owned string.
    fn label() -> (r: String)
        ensures
            r@ == Self::spec_label(),
    ;

    /// Registry invariant: a canonical label is never empty.
    proof fn lemma_label_nonempty()
        ensures
            Self::spec_label().len() > 0,
    ;
}

/// The canonical label of the kind `K`. Never fails: the registry is a
/// closed, compile-time-checked set.
pub fn label_for<K: MarkerKind>() -> (r: String)
    ensures
        r@ == K::spec_label(),
{
    K::label()
}

/// Validating lookup: confirms that the candidate label names the
/// statically expected kind `K`, and rejects every other string. It never
/// returns "some other kind"; the target kind is fixed by the caller.
pub fn kind_from_label<K: MarkerKind>(label: &str) -> (r: Result<(), ParseError>)
    ensures
        r is Ok <==> label@ == K::spec_label(),
        r matches Err(e) ==> e@ == mismatch_message(),
{
    let expected: String = K::label();
    let candidate: String = label.to_owned();
    if expected == candidate {
        Ok(())
    } else {
        Err(ParseError::label_mismatch())
    }
}

/// A marker kind labelled `"Mp4"`.
#[derive(Debug, PartialEq, Eq, Clone, Default)]
pub struct Mp4;

impl MarkerKind for Mp4 {
    open spec fn spec_label() -> Seq<char> {
        "Mp4"@
    }

    fn label() -> (r: String) {
        "Mp4".to_owned()
    }

    proof fn lemma_label_nonempty() {
        reveal_strlit("Mp4");
    }
}

/// A marker kind labelled `"Avi"`.
#[derive(Debug, PartialEq, Eq, Clone, Default)]
pub struct Avi;

impl MarkerKind for Avi {
    open spec fn spec_label() -> Seq<char> {
        "Avi"@
    }

    fn label() -> (r: String) {
        "Avi".to_owned()
    }

    proof fn lemma_label_nonempty() {
        reveal_strlit("Avi");
    }
}

/// Registry invariant: the two registered kinds carry distinct canonical
/// labels, so the label-to-kind mapping is a bijection over the closed set.
pub proof fn lemma_labels_distinct()
    ensures
        Mp4::spec_label() != Avi::spec_label(),
{
    reveal_strlit("Mp4");
    reveal_strlit("Avi");
    assert(Mp4::spec_label()[0] != Avi::spec_label()[0]);
}

} // verus!
