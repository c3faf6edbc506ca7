//! Delivery of transcribed text.
//!
//! Each non-empty text is delivered as it arrives, by the configured method.
//! A method that was not built into the program falls back to printing. The
//! clipboard method keeps the whole text of the recording on the clipboard.

use vstd::prelude::*;
use vstd::string::{StrSliceExecFns, StringExecFns};

use crate::config::OutputMethod;

verus! {

/// Which methods the program was built with.
#[derive(Debug, Clone, Copy)]
pub struct AvailableMethods {
    pub xdo: bool,
    pub clipboard: bool,
    pub ydotool: bool,
}

/// The method actually used for the configured one.
pub open spec fn emitter_spec(method: OutputMethod, available: AvailableMethods) -> OutputMethod {
    match method {
        OutputMethod::Xdo => if available.xdo {
            OutputMethod::Xdo
        } else {
            OutputMethod::Print
        },
        OutputMethod::Clipboard => if available.clipboard {
            OutputMethod::Clipboard
        } else {
            OutputMethod::Print
        },
        OutputMethod::Ydotool => if available.ydotool {
            OutputMethod::Ydotool
        } else {
            OutputMethod::Print
        },
        OutputMethod::Print => OutputMethod::Print,
    }
}

/// Chooses the method used: the configured one when it was built in,
/// printing otherwise (the caller warns about the fallback).
pub fn emitter_for(method: OutputMethod, available: AvailableMethods) -> (m: OutputMethod)
    ensures
        m == emitter_spec(method, available),
{
    match method {
        OutputMethod::Xdo => if available.xdo {
            OutputMethod::Xdo
        } else {
            OutputMethod::Print
        },
        OutputMethod::Clipboard => if available.clipboard {
            OutputMethod::Clipboard
        } else {
            OutputMethod::Print
        },
        OutputMethod::Ydotool => if available.ydotool {
            OutputMethod::Ydotool
        } else {
            OutputMethod::Print
        },
        OutputMethod::Print => OutputMethod::Print,
    }
}

/// Only non-empty texts are delivered.
pub fn should_emit(text: &str) -> (b: bool)
    ensures
        b == (text@.len() > 0),
{
    text.unicode_len() > 0
}

/// The clipboard's content after a text arrives: everything delivered so
/// far in this recording, in order.
pub fn clipboard_text(previous: &str, text: &str) -> (r: String)
    ensures
        r@ == previous@ + text@,
{
    let mut r = previous.to_owned();
    r.append(text);
    r
}

/// A configured method that was built in is used as it is, and printing is
/// always available; the only other outcome is the fallback to printing,
/// which happens exactly when the configured method was not built in.
pub proof fn lemma_built_in_method_is_used(method: OutputMethod, available: AvailableMethods)
    ensures
        (method == OutputMethod::Xdo && available.xdo) || (method == OutputMethod::Clipboard
            && available.clipboard) || (method == OutputMethod::Ydotool && available.ydotool) || method
            == OutputMethod::Print ==> emitter_spec(method, available) == method,
        emitter_spec(method, available) != method ==> emitter_spec(method, available)
            == OutputMethod::Print && !((method == OutputMethod::Xdo && available.xdo) || (method
            == OutputMethod::Clipboard && available.clipboard) || (method == OutputMethod::Ydotool
            && available.ydotool) || method == OutputMethod::Print),
{
}

} // verus!
