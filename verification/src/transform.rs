//! The per-block text transform: keep the first, the last, or all physical
//! lines of a block, then optionally rewrite the survivor through one of the
//! two canonical Chinese-conversion dictionaries.

use vstd::prelude::*;
use vstd::string::*;
use crate::textlines::lines_of;
use crate::textlines::{first_line, last_line};

verus! {

/// Which physical lines of a block survive.
#[derive(Clone, Copy, Debug, PartialEq, Eq)]
pub enum Lines {
    First,
    Last,
    All,
}

/// Which canonical Chinese-conversion dictionary is applied, if any.
#[derive(Clone, Copy, Debug, PartialEq, Eq)]
pub enum ChineseConv {
    Off,
    S2T,
    T2S,
}

/// What the canonical simplified-to-traditional dictionary rewrites a text to.
pub uninterp spec fn s2t_of(text: Seq<char>) -> Seq<char>;

/// What the canonical traditional-to-simplified dictionary rewrites a text to.
pub uninterp spec fn t2s_of(text: Seq<char>) -> Seq<char>;

/// Relies on simplecc::dicts::S2T, the canonical simplified-to-traditional
/// dictionary, and simplecc::Dict::replace_all: substitution by a fixed
/// immutable table, a function of the text alone.
#[verifier::external_body]
fn s2t_replace(text: &str) -> (r: String)
    ensures
        r@ == s2t_of(text@),
{
    simplecc::dicts::S2T.replace_all(text)
}

/// Relies on simplecc::dicts::T2S, the canonical traditional-to-simplified
/// dictionary, and simplecc::Dict::replace_all: substitution by a fixed
/// immutable table, a function of the text alone.
#[verifier::external_body]
fn t2s_replace(text: &str) -> (r: String)
    ensures
        r@ == t2s_of(text@),
{
    simplecc::dicts::T2S.replace_all(text)
}

pub open spec fn apply_conv_spec(conv: ChineseConv, t: Seq<char>) -> Seq<char> {
    match conv {
        ChineseConv::Off => t,
        ChineseConv::S2T => s2t_of(t),
        ChineseConv::T2S => t2s_of(t),
    }
}

/// The surviving text of a block: its first or last physical line (absent
/// when the block is empty), or the whole block unsplit.
pub open spec fn select_spec(policy: Lines, s: Seq<char>) -> Option<Seq<char>> {
    match policy {
        Lines::First => if s.len() == 0 {
            Option::<Seq<char>>::None
        } else {
            Option::Some(lines_of(s).first())
        },
        Lines::Last => if s.len() == 0 {
            Option::<Seq<char>>::None
        } else {
            Option::Some(lines_of(s).last())
        },
        Lines::All => Option::Some(s),
    }
}

/// The whole per-block mapping: line selection, then script conversion.
pub open spec fn map_block_spec(s: Seq<char>, policy: Lines, conv: ChineseConv) -> Option<
    Seq<char>,
> {
    match select_spec(policy, s) {
        Option::Some(t) => Option::Some(apply_conv_spec(conv, t)),
        Option::None => Option::<Seq<char>>::None,
    }
}

/// Rewrite a text through the configured dictionary, or pass it through.
pub fn apply_conv(conv: &ChineseConv, text: String) -> (r: String)
    ensures
        r@ == apply_conv_spec(*conv, text@),
{
    match conv {
        ChineseConv::Off => text,
        ChineseConv::S2T => s2t_replace(text.as_str()),
        ChineseConv::T2S => t2s_replace(text.as_str()),
    }
}

/// The mapper handed to the subtitle converter, once per text block it
/// discovers, in document order: pure, with no cross-block state.
pub fn map_block(s: String, policy: &Lines, conv: &ChineseConv) -> (r: Option<String>)
    ensures
        r is Some <==> map_block_spec(s@, *policy, *conv) is Some,
        r is Some ==> r->0@ == map_block_spec(s@, *policy, *conv)->0,
{
    let selected: Option<String> = match policy {
        Lines::First => {
            if s.as_str().unicode_len() == 0 {
                None
            } else {
                Some(first_line(s.as_str()))
            }
        },
        Lines::Last => {
            if s.as_str().unicode_len() == 0 {
                None
            } else {
                Some(last_line(s.as_str()))
            }
        },
        Lines::All => Some(s),
    };
    match selected {
        Some(t) => Some(apply_conv(conv, t)),
        None => None,
    }
}

} // verus!
