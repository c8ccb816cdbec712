//! The entry point: tokenizing a whole input.
use vstd::prelude::*;
use vstd::string::StringSliceAdditionalSpecFns;
use crate::tokenizer::{tokenize_spec, Tokenizer};

verus! {

/// Tokenizes `input`; messages will count lines from 0 when `zero_indexing`
/// holds, else from 1.
pub fn parse<'a>(input: &'a str, zero_indexing: bool) -> (r: Tokenizer<'a>)
    ensures
        r.input == input,
        r.indexing == (if zero_indexing {
            0usize
        } else {
            1usize
        }),
        r.instructions@ == tokenize_spec(input.spec_bytes()).0,
        r.errors@ == tokenize_spec(input.spec_bytes()).1,
{
    let mut tokenizer = Tokenizer::new(
        input,
        if zero_indexing {
            0
        } else {
            1
        },
    );
    tokenizer.tokenize();
    proof {
        assert(tokenizer.instructions@ =~= tokenize_spec(input.spec_bytes()).0);
        assert(tokenizer.errors@ =~= tokenize_spec(input.spec_bytes()).1);
    }
    tokenizer
}

} // verus!
