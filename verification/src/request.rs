//! One request for decoration: the path, the token to wrap it with, and
//! whether backslashes are to be doubled.

use vstd::prelude::*;
use vstd::string::StringExecFns;

use crate::decorate::{decorated, get_path_str};

verus! {

/// What a request holds, as plain values.
pub struct RequestView {
    pub path: Seq<char>,
    pub wrapper: Seq<char>,
    pub escape: bool,
}

/// A request for decoration. It is made once and not changed afterwards.
#[derive(Debug)]
pub struct DecorationRequest {
    path: String,
    wrapper: String,
    escape: bool,
}

impl View for DecorationRequest {
    type V = RequestView;

    closed spec fn view(&self) -> RequestView {
        RequestView { path: self.path@, wrapper: self.wrapper@, escape: self.escape }
    }
}

impl DecorationRequest {
    /// A request to decorate `path` with `wrapper`; an empty `wrapper` asks
    /// for no wrapping.
    pub fn new(path: &str, wrapper: &str, escape: bool) -> (ret: Self)
        ensures
            ret@ == (RequestView { path: path@, wrapper: wrapper@, escape }),
    {
        DecorationRequest {
            path: String::from_str(path),
            wrapper: String::from_str(wrapper),
            escape,
        }
    }

    /// The request that a command line stands for: a token that was left out
    /// is the empty token.
    pub fn from_arguments(path: &str, wrapper: Option<&str>, escape: bool) -> (ret: Self)
        ensures
            ret@.path == path@,
            ret@.wrapper == match wrapper {
                Some(w) => w@,
                None => Seq::<char>::empty(),
            },
            ret@.escape == escape,
    {
        match wrapper {
            Some(w) => DecorationRequest::new(path, w, escape),
            None => DecorationRequest {
                path: String::from_str(path),
                wrapper: String::new(),
                escape,
            },
        }
    }

    /// The path to decorate.
    pub fn path(&self) -> (ret: &str)
        ensures
            ret@ == self@.path,
    {
        self.path.as_str()
    }

    /// The token to wrap the path with.
    pub fn wrapper(&self) -> (ret: &str)
        ensures
            ret@ == self@.wrapper,
    {
        self.wrapper.as_str()
    }

    /// Whether backslashes are to be doubled.
    pub fn escape(&self) -> (ret: bool)
        ensures
            ret == self@.escape,
    {
        self.escape
    }

    /// The decorated path that this request asks for.
    pub fn decorate(&self) -> (ret: String)
        ensures
            ret@ == decorated(self@.path, self@.wrapper, self@.escape),
    {
        get_path_str(self.path.as_str(), self.wrapper.as_str(), self.escape)
    }
}

} // verus!
