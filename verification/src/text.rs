//! Text forms of variants and primary keys, and the identifiers built from them.

use vstd::prelude::*;

verus! {

/// A value with a stable display form, such as the variant of a node or of an edge.
///
/// The display form names the collection under which a record is stored and
/// opens the identifier of a record.
pub trait DisplayText {
    /// The display form of the value. As provided it is left open: an
    /// implementor states it.
    open spec fn display_text(&self) -> Seq<char> {
        arbitrary()
    }

    /// Returns the display form of the value.
    fn to_display_text(&self) -> (text: String)
        ensures
            text@ == self.display_text(),
    ;
}

/// A value with a stable debug form, such as a primary key.
///
/// The debug form is what identifiers hold of a key: a number in decimal, a
/// string between quotes, a pair between round brackets.
pub trait DebugText {
    /// The debug form of the value. As provided it is left open: an
    /// implementor states it.
    open spec fn debug_text(&self) -> Seq<char> {
        arbitrary()
    }

    /// Returns the debug form of the value.
    fn to_debug_text(&self) -> (text: String)
        ensures
            text@ == self.debug_text(),
    ;
}

/// The separator between the parts of an identifier.
pub open spec fn separator() -> Seq<char> {
    seq!['|']
}

/// The identifier of a record: its variant, the separator, its primary key.
///
/// The key is not escaped: a key whose debug form holds the separator gives an
/// identifier that another variant and key may give too.
pub open spec fn record_id_text(variant: Seq<char>, pk: Seq<char>) -> Seq<char> {
    variant + separator() + pk
}

/// The identifier of the edge that links two nodes: the source's primary key,
/// the edge's variant and the target's primary key, with the separator between
/// them.
pub open spec fn link_id_text(source_pk: Seq<char>, variant: Seq<char>, target_pk: Seq<char>) -> Seq<
    char,
> {
    source_pk + separator() + variant + separator() + target_pk
}

/// Formats the identifier of a record from its variant and its primary key.
pub fn record_id<V: DisplayText, K: DebugText>(variant: &V, pk: &K) -> (id: String)
    ensures
        id@ == record_id_text(variant.display_text(), pk.debug_text()),
{
    let mut id = variant.to_display_text();
    let pk_text = pk.to_debug_text();
    proof {
        reveal_strlit("|");
        assert("|"@ =~= separator());
    }
    id.append("|");
    id.append(pk_text.as_str());
    id
}

/// Formats the identifier of the edge of the given variant between the nodes
/// with the given primary keys.
pub fn link_id<KS: DebugText, V: DisplayText, KT: DebugText>(
    source_pk: &KS,
    variant: &V,
    target_pk: &KT,
) -> (id: String)
    ensures
        id@ == link_id_text(source_pk.debug_text(), variant.display_text(), target_pk.debug_text()),
{
    let mut id = source_pk.to_debug_text();
    let variant_text = variant.to_display_text();
    let target_text = target_pk.to_debug_text();
    proof {
        reveal_strlit("|");
        assert("|"@ =~= separator());
    }
    id.append("|");
    id.append(variant_text.as_str());
    id.append("|");
    id.append(target_text.as_str());
    id
}

impl DisplayText for String {
    open spec fn display_text(&self) -> Seq<char> {
        self@
    }

    fn to_display_text(&self) -> (text: String) {
        self.clone()
    }
}

impl<'a> DisplayText for &'a str {
    open spec fn display_text(&self) -> Seq<char> {
        self@
    }

    fn to_display_text(&self) -> (text: String) {
        (*self).to_owned()
    }
}

/// The debug form of a text, as `Debug` for `str` writes it: the text between
/// double quotes, with the characters that need it escaped.
pub uninterp spec fn quoted_text(text: Seq<char>) -> Seq<char>;

/// Formats a text with `Debug` for `str`. The result is a function of the
/// text alone.
#[verifier::external_body]
fn quote(text: &str) -> (quoted: String)
    ensures
        quoted@ == quoted_text(text@),
{
    format!("{:?}", text)
}

impl DebugText for String {
    open spec fn debug_text(&self) -> Seq<char> {
        quoted_text(self@)
    }

    fn to_debug_text(&self) -> (text: String) {
        quote(self.as_str())
    }
}

impl<'a> DebugText for &'a str {
    open spec fn debug_text(&self) -> Seq<char> {
        quoted_text(self@)
    }

    fn to_debug_text(&self) -> (text: String) {
        quote(*self)
    }
}

/// The debug form of the unit: one pair of round brackets.
pub open spec fn unit_text() -> Seq<char> {
    seq!['(', ')']
}

impl DebugText for () {
    open spec fn debug_text(&self) -> Seq<char> {
        unit_text()
    }

    fn to_debug_text(&self) -> (text: String) {
        proof {
            reveal_strlit("()");
            assert("()"@ =~= unit_text());
        }
        "()".to_owned()
    }
}

/// The debug form of a pair: the debug forms of its two parts between round
/// brackets, with a comma and a space between them.
pub open spec fn pair_text(first: Seq<char>, second: Seq<char>) -> Seq<char> {
    seq!['('] + first + seq![',', ' '] + second + seq![')']
}

impl<A: DebugText, B: DebugText> DebugText for (A, B) {
    open spec fn debug_text(&self) -> Seq<char> {
        pair_text(self.0.debug_text(), self.1.debug_text())
    }

    fn to_debug_text(&self) -> (text: String) {
        let first = self.0.to_debug_text();
        let second = self.1.to_debug_text();
        proof {
            reveal_strlit("(");
            reveal_strlit(", ");
            reveal_strlit(")");
            assert("("@ =~= seq!['(']);
            assert(", "@ =~= seq![',', ' ']);
            assert(")"@ =~= seq![')']);
        }
        let mut text = "(".to_owned();
        text.append(first.as_str());
        text.append(", ");
        text.append(second.as_str());
        text.append(")");
        text
    }
}

} // verus!
