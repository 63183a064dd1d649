//! What an operation on the proxies asks of the `networksetup` program.

use vstd::prelude::*;

use crate::errors::{PlatformError, PlatformErrorView};
use crate::text::same_text;

verus! {

/// One run of the program.
#[derive(Debug, PartialEq, Eq)]
pub enum NetworkSetupRequest {
    /// With the argument that lists the network services.
    ListServices,
    /// With these arguments.
    Run(Vec<String>),
}

/// What a `NetworkSetupRequest` asks.
pub enum RequestView {
    ListServices,
    Run(Seq<Seq<char>>),
}

impl View for NetworkSetupRequest {
    type V = RequestView;

    open spec fn view(&self) -> RequestView {
        match self {
            NetworkSetupRequest::ListServices => RequestView::ListServices,
            NetworkSetupRequest::Run(args) => RequestView::Run(args.deep_view()),
        }
    }
}

impl RequestView {
    /// The arguments of the run.
    pub open spec fn args(self) -> Seq<Seq<char>> {
        match self {
            RequestView::ListServices => seq!["-listallnetworkservices"@],
            RequestView::Run(args) => args,
        }
    }
}

impl NetworkSetupRequest {
    /// The arguments of the run.
    pub fn args(&self) -> (r: Vec<String>)
        ensures
            r.deep_view() == self@.args(),
    {
        let r = match self {
            NetworkSetupRequest::ListServices => vec!["-listallnetworkservices".to_owned()],
            NetworkSetupRequest::Run(args) => args.clone(),
        };
        assert(r.deep_view() == self@.args());
        r
    }
}

/// What one run gives: what the program printed, or why there is nothing.
pub open spec fn reply_view(reply: Result<String, PlatformError>) -> Result<
    Seq<char>,
    PlatformErrorView,
> {
    match reply {
        Ok(output) => Ok(output@),
        Err(e) => Err(e@),
    }
}

/// Whether `texts` holds `wanted`.
pub fn contains_text(texts: &Vec<String>, wanted: &str) -> (r: bool)
    ensures
        r == texts.deep_view().contains(wanted@),
{
    for i in 0..texts.len()
        invariant
            forall|j: int| 0 <= j < i ==> texts.deep_view()[j] != wanted@,
    {
        assert(texts.deep_view()[i as int] == texts@[i as int]@);
        if same_text(texts[i].as_str(), wanted) {
            return true;
        }
    }
    false
}

/// The complaint of a platform whose proxies cannot be set.
pub open spec fn no_proxy_sync() -> PlatformErrorView {
    PlatformErrorView::Unsupported("当前平台尚未接入系统代理同步"@)
}

/// The complaint of a platform whose proxies cannot be read.
pub open spec fn no_proxy_snapshot() -> PlatformErrorView {
    PlatformErrorView::Unsupported("当前平台尚未接入系统代理快照"@)
}

/// The complaint of a platform whose proxies cannot be put back.
pub open spec fn no_proxy_restore() -> PlatformErrorView {
    PlatformErrorView::Unsupported("当前平台尚未接入系统代理快照恢复"@)
}

/// A listing is asked for with its one argument, and every other run has just the arguments that it
/// was asked with.
pub proof fn law_request_args(args: Seq<Seq<char>>)
    ensures
        RequestView::ListServices.args() == seq!["-listallnetworkservices"@],
        RequestView::Run(args).args() == args,
{
}

} // verus!
