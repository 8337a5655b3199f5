//! The request and response shapes of the box-opening service.

use vstd::prelude::*;

verus! {

/// What a service call answers: the payload, or an error in brief and full
/// form.
#[derive(Debug, Clone)]
pub enum AppResponse<T> {
    Success { data: T },
    Error { brief: String, full: String },
}

/// One element of a bot reply: a line of text, or an image by path.
#[derive(Debug, Clone)]
pub enum Message {
    Text(String),
    Image(String),
}

/// A box-opening request: which box, how often, in which language.
#[derive(Debug, Clone)]
pub struct BoxParam {
    pub lang: String,
    pub box_name: String,
    pub amount: u32,
}

/// A box-search request.
#[derive(Debug, Clone)]
pub struct SearchQueryArg {
    pub pat: String,
    pub lang: String,
    pub limit: Option<u32>,
}

} // verus!
