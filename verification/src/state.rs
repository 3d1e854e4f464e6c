//! The single mutable model of one request-composing session. Its own
//! methods are the only writers of the URL, the parameter table and the
//! response field: every edit of the table rebuilds the URL, every URL
//! edit that brings a query string re-derives the table, and the response
//! is written only by settling the most recently issued dispatch.

use crate::dispatch::{
    method_of, outcome_text, unsupported_method_message, CallOutcome, DispatchAction, Method,
};
use crate::params::{empty_param, views_of, Param, ParamType, ParamView};
use crate::sync::{build_url, built_url, parse_query, parse_query_params, query_part};
use crate::text::{contains_char, lemma_find_char, scan_char};
use vstd::prelude::*;
use vstd::string::{StrSliceExecFns, StringExecFns};

verus! {

/// Neither the method, the raw body nor the response moved.
pub open spec fn same_request_fields(a: RequestState, b: RequestState) -> bool {
    &&& a.method == b.method
    &&& a.request_body == b.request_body
    &&& a.response == b.response
}

/// No dispatch was issued or settled in between.
pub open spec fn same_dispatch_ids(a: RequestState, b: RequestState) -> bool {
    &&& a.next_req == b.next_req
    &&& a.current_req == b.current_req
}

/// The state of one request-composing session.
pub struct RequestState {
    /// The request method name; dispatch refuses anything outside the
    /// supported set.
    pub method: String,
    /// The full URL, query string included.
    pub url: String,
    /// The raw request body text; unvalidated, and not sent by dispatch.
    pub request_body: String,
    /// The last settled response body or error message; empty means no
    /// response yet.
    pub response: String,
    /// The parameter rows, in display and serialization order.
    pub params: Vec<Param>,
    /// The id the next issued dispatch will carry.
    pub next_req: u64,
    /// The id of the most recently issued dispatch; only an outcome
    /// carrying it may write the response.
    pub current_req: u64,
}

impl RequestState {
    /// A fresh session: method GET, everything else empty, no dispatch
    /// issued yet.
    pub fn new() -> (s: RequestState)
        ensures
            s.method@ == "GET"@,
            s.url@ == Seq::<char>::empty(),
            s.request_body@ == Seq::<char>::empty(),
            s.response@ == Seq::<char>::empty(),
            s.params@.len() == 0,
            s.next_req == 1,
            s.current_req == 0,
    {
        RequestState {
            method: String::from_str("GET"),
            url: String::new(),
            request_body: String::new(),
            response: String::new(),
            params: Vec::new(),
            next_req: 1,
            current_req: 0,
        }
    }

    /// Select the request method.
    pub fn set_method(&mut self, method: String)
        ensures
            final(self).method == method,
            final(self).url == old(self).url,
            final(self).params == old(self).params,
            final(self).request_body == old(self).request_body,
            final(self).response == old(self).response,
            same_dispatch_ids(*final(self), *old(self)),
    {
        self.method = method;
    }

    /// Replace the raw request body text.
    pub fn set_request_body(&mut self, body: String)
        ensures
            final(self).request_body == body,
            final(self).method == old(self).method,
            final(self).url == old(self).url,
            final(self).params == old(self).params,
            final(self).response == old(self).response,
            same_dispatch_ids(*final(self), *old(self)),
    {
        self.request_body = body;
    }

    /// Replace the URL, as typing in the URL field does: the Parse pass.
    /// A URL containing '?' re-derives the whole parameter table from its
    /// query string, discarding the old rows; one without leaves the
    /// table untouched.
    pub fn set_url(&mut self, url: String)
        ensures
            final(self).url == url,
            contains_char(url@, '?') ==> views_of(final(self).params@) == parse_query(
                query_part(url@),
            ),
            !contains_char(url@, '?') ==> final(self).params == old(self).params,
            same_request_fields(*final(self), *old(self)),
            same_dispatch_ids(*final(self), *old(self)),
    {
        let n = url.as_str().unicode_len();
        let qi = scan_char(url.as_str(), '?');
        proof {
            lemma_find_char(url@, '?');
        }
        if qi < n {
            let query = url.as_str().substring_char(qi + 1, n);
            proof {
                assert(query@ =~= query_part(url@));
            }
            self.params = parse_query_params(query);
        }
        self.url = url;
    }

    /// Rebuild the URL from the current table: the Build pass, triggered
    /// by every edit of a row's name or value and by adding or removing a
    /// row.
    pub fn rebuild_url(&mut self)
        ensures
            final(self).url@ == built_url(old(self).url@, views_of(old(self).params@)),
            final(self).params == old(self).params,
            same_request_fields(*final(self), *old(self)),
            same_dispatch_ids(*final(self), *old(self)),
    {
        let new_url = build_url(self.url.as_str(), &self.params);
        self.url = new_url;
    }

    /// Append a fresh empty row, then rebuild the URL. The fresh row has
    /// an empty name, so it is kept in the table but not serialized.
    pub fn add_param(&mut self)
        ensures
            views_of(final(self).params@) == views_of(old(self).params@).push(empty_param()),
            final(self).url@ == built_url(old(self).url@, views_of(final(self).params@)),
            same_request_fields(*final(self), *old(self)),
            same_dispatch_ids(*final(self), *old(self)),
    {
        self.params.push(Param::default());
        proof {
            assert(views_of(self.params@) =~= views_of(old(self).params@).push(empty_param()));
        }
        self.rebuild_url();
    }

    /// Remove the row at `i`, then rebuild the URL.
    pub fn remove_param(&mut self, i: usize)
        requires
            i < old(self).params@.len(),
        ensures
            views_of(final(self).params@) == views_of(old(self).params@).remove(i as int),
            final(self).url@ == built_url(old(self).url@, views_of(final(self).params@)),
            same_request_fields(*final(self), *old(self)),
            same_dispatch_ids(*final(self), *old(self)),
    {
        self.params.remove(i);
        proof {
            assert(views_of(self.params@) =~= views_of(old(self).params@).remove(i as int));
        }
        self.rebuild_url();
    }

    /// Rename the row at `i`, then rebuild the URL.
    pub fn set_param_name(&mut self, i: usize, name: String)
        requires
            i < old(self).params@.len(),
        ensures
            views_of(final(self).params@) == views_of(old(self).params@).update(
                i as int,
                ParamView { name: name@, ..views_of(old(self).params@)[i as int] },
            ),
            final(self).url@ == built_url(old(self).url@, views_of(final(self).params@)),
            same_request_fields(*final(self), *old(self)),
            same_dispatch_ids(*final(self), *old(self)),
    {
        let p = self.params.remove(i);
        let np = Param { name, ..p };
        self.params.insert(i, np);
        proof {
            assert(views_of(self.params@) =~= views_of(old(self).params@).update(
                i as int,
                ParamView { name: name@, ..views_of(old(self).params@)[i as int] },
            ));
        }
        self.rebuild_url();
    }

    /// Give the row at `i` a new value, then rebuild the URL.
    pub fn set_param_value(&mut self, i: usize, value: String)
        requires
            i < old(self).params@.len(),
        ensures
            views_of(final(self).params@) == views_of(old(self).params@).update(
                i as int,
                ParamView { value: value@, ..views_of(old(self).params@)[i as int] },
            ),
            final(self).url@ == built_url(old(self).url@, views_of(final(self).params@)),
            same_request_fields(*final(self), *old(self)),
            same_dispatch_ids(*final(self), *old(self)),
    {
        let p = self.params.remove(i);
        let np = Param { value, ..p };
        self.params.insert(i, np);
        proof {
            assert(views_of(self.params@) =~= views_of(old(self).params@).update(
                i as int,
                ParamView { value: value@, ..views_of(old(self).params@)[i as int] },
            ));
        }
        self.rebuild_url();
    }

    /// Change the cosmetic kind column of the row at `i`; the URL is not
    /// rebuilt, since the kind never takes part in serialization.
    pub fn set_param_type(&mut self, i: usize, type_: ParamType)
        requires
            i < old(self).params@.len(),
        ensures
            views_of(final(self).params@) == views_of(old(self).params@).update(
                i as int,
                ParamView { type_: type_, ..views_of(old(self).params@)[i as int] },
            ),
            final(self).url == old(self).url,
            same_request_fields(*final(self), *old(self)),
            same_dispatch_ids(*final(self), *old(self)),
    {
        let p = self.params.remove(i);
        let np = Param { type_, ..p };
        self.params.insert(i, np);
        proof {
            assert(views_of(self.params@) =~= views_of(old(self).params@).update(
                i as int,
                ParamView { type_: type_, ..views_of(old(self).params@)[i as int] },
            ));
        }
    }

    /// Flip the cosmetic required flag of the row at `i`; no rebuild.
    pub fn set_param_required(&mut self, i: usize, required: bool)
        requires
            i < old(self).params@.len(),
        ensures
            views_of(final(self).params@) == views_of(old(self).params@).update(
                i as int,
                ParamView { required, ..views_of(old(self).params@)[i as int] },
            ),
            final(self).url == old(self).url,
            same_request_fields(*final(self), *old(self)),
            same_dispatch_ids(*final(self), *old(self)),
    {
        let p = self.params.remove(i);
        let np = Param { required, ..p };
        self.params.insert(i, np);
        proof {
            assert(views_of(self.params@) =~= views_of(old(self).params@).update(
                i as int,
                ParamView { required, ..views_of(old(self).params@)[i as int] },
            ));
        }
    }

    /// Change the cosmetic description of the row at `i`; no rebuild.
    pub fn set_param_description(&mut self, i: usize, description: String)
        requires
            i < old(self).params@.len(),
        ensures
            views_of(final(self).params@) == views_of(old(self).params@).update(
                i as int,
                ParamView { description: description@, ..views_of(old(self).params@)[i as int] },
            ),
            final(self).url == old(self).url,
            same_request_fields(*final(self), *old(self)),
            same_dispatch_ids(*final(self), *old(self)),
    {
        let p = self.params.remove(i);
        let np = Param { description, ..p };
        self.params.insert(i, np);
        proof {
            assert(views_of(self.params@) =~= views_of(old(self).params@).update(
                i as int,
                ParamView { description: description@, ..views_of(old(self).params@)[i as int] },
            ));
        }
    }

    /// Start one dispatch. A supported method yields a `Perform` action
    /// carrying a fresh request id: the caller performs the HTTP call with
    /// this state's URL and reports back through `finish_dispatch`. An
    /// unsupported method yields no call at all — the response field takes
    /// the fixed message at once.
    pub fn begin_dispatch(&mut self) -> (a: DispatchAction)
        requires
            old(self).next_req < u64::MAX,
        ensures
            final(self).method == old(self).method,
            final(self).url == old(self).url,
            final(self).request_body == old(self).request_body,
            final(self).params == old(self).params,
            match method_of(old(self).method@) {
                Some(m) => {
                    &&& a == (DispatchAction::Perform { id: old(self).next_req, method: m })
                    &&& final(self).next_req == old(self).next_req + 1
                    &&& final(self).current_req == old(self).next_req
                    &&& final(self).response == old(self).response
                },
                None => {
                    &&& a == DispatchAction::Rejected
                    &&& same_dispatch_ids(*final(self), *old(self))
                    &&& final(self).response@ == "Unsupported method"@
                },
            },
    {
        match Method::from_name(self.method.as_str()) {
            Some(m) => {
                let id = self.next_req;
                self.next_req = self.next_req + 1;
                self.current_req = id;
                DispatchAction::Perform { id, method: m }
            },
            None => {
                self.response = unsupported_method_message();
                DispatchAction::Rejected
            },
        }
    }

    /// Settle one dispatch: write the outcome's text — response body and
    /// failure message alike — into the response field, but only if `id`
    /// is still the most recently issued request id. A stale outcome is
    /// discarded, so of two overlapping dispatches the later issued one
    /// wins whatever the order of arrival.
    pub fn finish_dispatch(&mut self, id: u64, outcome: CallOutcome)
        ensures
            final(self).method == old(self).method,
            final(self).url == old(self).url,
            final(self).request_body == old(self).request_body,
            final(self).params == old(self).params,
            same_dispatch_ids(*final(self), *old(self)),
            id == old(self).current_req ==> final(self).response@ == outcome_text(outcome),
            id != old(self).current_req ==> final(self).response == old(self).response,
    {
        if id == self.current_req {
            self.response = match outcome {
                CallOutcome::Body(b) => b,
                CallOutcome::Failure(e) => e,
            };
        }
    }
}

} // verus!
