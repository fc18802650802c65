//! Validator spans as the checkpoint layer describes them.

use vstd::prelude::*;

verus! {

/// Path of the checkpoint layer's span endpoint.
pub const FETCH_SPAN_PATH: &'static str = "bor/span";

/// The block range, inclusive, over which one validator set is authoritative.
#[derive(Clone, Copy, Debug, PartialEq, Eq)]
pub struct Span {
    pub span_id: u64,
    pub start_block: u64,
    pub end_block: u64,
}

/// The span record of the checkpoint layer.
#[derive(Clone, Copy, Debug, PartialEq, Eq)]
pub struct HeimdallSpan {
    pub span: Span,
}

/// The checkpoint layer's answer to a span query.
#[derive(Clone, Debug)]
pub struct SpanResponse {
    pub height: String,
    pub result: HeimdallSpan,
}

} // verus!
