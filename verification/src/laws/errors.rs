//! What is told of errors.

use crate::error::{
    holds_cancellation, io_text, node_holds_cancellation, node_text, Canceled, ErrorKind, ErrorNode,
    IoError,
};
use crate::step::Failure;
use vstd::prelude::*;

verus! {

/// Whether one error value leads to the next: the inner value of an I/O error, or the
/// source of another error. A cancellation leads nowhere.
pub open spec fn linked(from: ErrorNode, to: ErrorNode) -> bool {
    ||| from matches ErrorNode::Io(IoError::Custom { kind: _, inner }) && *inner == to
    ||| from matches ErrorNode::Foreign { text: _, source: Some(cause) } && *cause == to
}

/// Whether these error values follow one on the other.
pub open spec fn is_chain(chain: Seq<ErrorNode>) -> bool {
    &&& chain.len() > 0
    &&& forall|i: int| #![trigger chain[i]]
        0 <= i < chain.len() - 1 ==> linked(chain[i], chain[i + 1])
}

/// Whether a chain of error values leads from the inner value of an I/O error to a
/// cancellation.
pub open spec fn chain_to_cancellation(err: IoError, chain: Seq<ErrorNode>) -> bool {
    &&& is_chain(chain)
    &&& err matches IoError::Custom { kind: _, inner } && *inner == chain[0]
    &&& chain.last() is Canceled
}

/// A chain that ends with a cancellation shows that its first value holds one.
proof fn lemma_chain_holds(chain: Seq<ErrorNode>)
    requires
        is_chain(chain),
        chain.last() is Canceled,
    ensures
        node_holds_cancellation(chain[0]),
    decreases chain.len(),
{
    reveal_with_fuel(node_holds_cancellation, 3);
    reveal_with_fuel(holds_cancellation, 3);
    if chain.len() > 1 {
        let rest = chain.drop_first();
        assert forall|i: int| 0 <= i < rest.len() - 1 implies linked(
            #[trigger] rest[i],
            rest[i + 1],
        ) by {
            assert(linked(chain[i + 1], chain[i + 1 + 1]));
        }
        lemma_chain_holds(rest);
        let first = chain[0];
        assert(linked(first, chain[1]));
    }
}

/// A value that holds a cancellation begins a chain to one.
proof fn lemma_holding_has_chain(node: ErrorNode) -> (chain: Seq<ErrorNode>)
    requires
        node_holds_cancellation(node),
    ensures
        is_chain(chain),
        chain[0] == node,
        chain.last() is Canceled,
    decreases node,
{
    reveal_with_fuel(node_holds_cancellation, 3);
    reveal_with_fuel(holds_cancellation, 3);
    match node {
        ErrorNode::Canceled(_) => seq![node],
        ErrorNode::Io(err) => {
            let next = *err->inner;
            let rest = lemma_holding_has_chain(next);
            let chain = seq![node] + rest;
            assert forall|i: int| 0 <= i < chain.len() - 1 implies linked(
                #[trigger] chain[i],
                chain[i + 1],
            ) by {
                if i > 0 {
                    assert(linked(rest[i - 1], rest[i - 1 + 1]));
                }
            }
            chain
        },
        ErrorNode::Foreign { text, source } => {
            let next = *source->0;
            let rest = lemma_holding_has_chain(next);
            let chain = seq![node] + rest;
            assert forall|i: int| 0 <= i < chain.len() - 1 implies linked(
                #[trigger] chain[i],
                chain[i + 1],
            ) by {
                if i > 0 {
                    assert(linked(rest[i - 1], rest[i - 1 + 1]));
                }
            }
            chain
        },
    }
}

/// An error is a cancellation exactly where a chain of inner values leads to one, the
/// inner values of I/O errors and the sources of other errors. So an error code of the
/// operating system and a mere kind of error, which hold nothing, never are.
pub proof fn law_canceled_iff_reachable(err: &IoError, found: bool)
    requires
        call_ensures(crate::error::is_canceled, (err,), found),
    ensures
        found <==> exists|chain: Seq<ErrorNode>| #[trigger] chain_to_cancellation(*err, chain),
        *err is Os ==> !found,
        *err is Simple ==> !found,
{
    reveal_with_fuel(holds_cancellation, 2);
    if found {
        let chain = lemma_holding_has_chain(*(*err)->inner);
        assert(chain_to_cancellation(*err, chain));
    }
    if exists|chain: Seq<ErrorNode>| #[trigger] chain_to_cancellation(*err, chain) {
        let chain = choose|chain: Seq<ErrorNode>| #[trigger] chain_to_cancellation(*err, chain);
        lemma_chain_holds(chain);
    }
}

/// Whether an error is a cancellation does not depend on what is wrapped around it: it is
/// the same of an error, of a custom error of any kind around it, and of one around
/// another error with any text that it is the source of.
pub proof fn law_wrapping_changes_no_answer(
    err: IoError,
    kind: ErrorKind,
    outer: &IoError,
    text: String,
    around: &IoError,
    plain: bool,
    wrapped: bool,
    sourced: bool,
)
    requires
        *outer == (IoError::Custom { kind, inner: Box::new(ErrorNode::Io(err)) }),
        *around == (IoError::Custom {
            kind,
            inner: Box::new(
                ErrorNode::Foreign { text, source: Some(Box::new(ErrorNode::Io(err))) },
            ),
        }),
        call_ensures(crate::error::is_canceled, (&err,), plain),
        call_ensures(crate::error::is_canceled, (outer,), wrapped),
        call_ensures(crate::error::is_canceled, (around,), sourced),
    ensures
        wrapped == plain,
        sourced == plain,
{
    reveal_with_fuel(holds_cancellation, 3);
    reveal_with_fuel(node_holds_cancellation, 3);
}

/// A text without a source is never a cancellation, in a custom error of any kind, and a
/// cancellation always is.
pub proof fn law_only_cancellations_match(
    kind: ErrorKind,
    text: String,
    message: &IoError,
    canceled: Canceled,
    cancellation: &IoError,
    of_message: bool,
    of_cancellation: bool,
)
    requires
        *message == (IoError::Custom {
            kind,
            inner: Box::new(ErrorNode::Foreign { text, source: None }),
        }),
        *cancellation == (IoError::Custom { kind, inner: Box::new(ErrorNode::Canceled(canceled)) }),
        call_ensures(crate::error::is_canceled, (message,), of_message),
        call_ensures(crate::error::is_canceled, (cancellation,), of_cancellation),
    ensures
        !of_message,
        of_cancellation,
{
    reveal_with_fuel(holds_cancellation, 3);
    reveal_with_fuel(node_holds_cancellation, 3);
}

/// A failure becomes an I/O error that says what the failure says: a cancellation and a
/// text are wrapped once, with no special kind, and an outside error is handed on.
pub proof fn law_failure_becomes_error(failure: Failure<IoError>, err: IoError, text: String)
    requires
        call_ensures(Failure::<IoError>::into_io, (failure,), err),
        call_ensures(IoError::to_string, (&err,), text),
    ensures
        failure matches Failure::Outside(outside) ==> err == outside,
        failure matches Failure::Canceled(canceled) ==> {
            &&& err matches IoError::Custom { kind: ErrorKind::Other, inner } && *inner
                == ErrorNode::Canceled(canceled)
            &&& text@ == "read canceled"@
        },
        failure matches Failure::Message(message) ==> {
            &&& err matches IoError::Custom { kind: ErrorKind::Other, inner } && (*inner matches ErrorNode::Foreign {
                text: said,
                source: None,
            } && said == message)
            &&& text@ == message@
        },
{
    reveal_with_fuel(io_text, 3);
    reveal_with_fuel(node_text, 3);
}

/// Every I/O error tells its own text, its own kind and its inner value. The text of a
/// custom error is that of its inner value.
pub proof fn law_errors_tell_of_themselves(
    err: &IoError,
    text: String,
    kind: &ErrorKind,
    value: Option<&ErrorNode>,
    inner_text: String,
)
    requires
        call_ensures(IoError::to_string, (err,), text),
        call_ensures(IoError::kind, (err,), kind),
        call_ensures(IoError::get_ref, (err,), value),
        value matches Some(node) ==> call_ensures(ErrorNode::to_string, (node,), inner_text),
    ensures
        *err matches IoError::Os { code: _, kind: k, text: t } ==> text@ == t@ && *kind == k
            && value is None,
        *err matches IoError::Simple { kind: k, text: t } ==> text@ == t@ && *kind == k
            && value is None,
        *err matches IoError::Custom { kind: k, inner } ==> text@ == inner_text@ && *kind == k
            && value == Some(&*inner),
{
    reveal_with_fuel(io_text, 2);
}

/// The text of an error value: that of the cancellation, of the I/O error, or its own.
pub proof fn law_values_tell_of_themselves(
    node: &ErrorNode,
    text: String,
    err: &IoError,
    io: String,
    canceled: &Canceled,
    cancellation: String,
)
    requires
        call_ensures(ErrorNode::to_string, (node,), text),
        call_ensures(IoError::to_string, (err,), io),
        call_ensures(Canceled::to_string, (canceled,), cancellation),
    ensures
        cancellation@ == "read canceled"@,
        *node is Canceled ==> text@ == cancellation@,
        *node == ErrorNode::Io(*err) ==> text@ == io@,
        *node matches ErrorNode::Foreign { text: own, source: _ } ==> text@ == own@,
{
    reveal_with_fuel(node_text, 2);
}

} // verus!
