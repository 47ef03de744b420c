//! The envelope of a request: the record that a user fills in for each
//! request it makes, and what becomes of the record when the request fails.

use vstd::prelude::*;

use crate::goose::GooseDebug;
use crate::metrics::{GooseErrorMetric, GooseMethod, GooseRawRequest, GooseRequestMetric};
use crate::text::{decimal, push_decimal, push_str};

verus! {

/// Why a request failed. None of these stops a user.
#[derive(Debug, Clone, Copy, PartialEq, Eq, Structural)]
pub enum GooseRequestError {
    /// No response arrived in time.
    Timeout,
    /// The host did not accept the connection.
    ConnectionRefused,
    /// The secure channel could not be set up.
    TlsError,
    /// The response came with a status that is no success.
    BadStatus(u16),
    /// The task declared the request a failure.
    UserAbort,
}

/// The label under which a failure is recorded.
pub open spec fn error_label(error: GooseRequestError) -> Seq<char> {
    match error {
        GooseRequestError::Timeout => "Timeout"@,
        GooseRequestError::ConnectionRefused => "ConnectionRefused"@,
        GooseRequestError::TlsError => "TlsError"@,
        GooseRequestError::BadStatus(code) => "BadStatus("@ + decimal(code as nat) + ")"@,
        GooseRequestError::UserAbort => "UserAbort"@,
    }
}

/// A status code stands for a success: it is one of the two hundreds.
pub open spec fn is_success_status(status_code: u16) -> bool {
    200 <= status_code < 300
}

/// The label of a failure is never empty.
pub proof fn lemma_error_label_not_empty(error: GooseRequestError)
    ensures
        error_label(error).len() > 0,
{
    reveal_strlit("Timeout");
    reveal_strlit("ConnectionRefused");
    reveal_strlit("TlsError");
    reveal_strlit("BadStatus(");
    reveal_strlit(")");
    reveal_strlit("UserAbort");
}

impl GooseRequestError {
    /// The label under which the failure is recorded.
    pub fn label(&self) -> (r: String)
        ensures
            r@ == error_label(*self),
            r@.len() > 0,
    {
        proof {
            lemma_error_label_not_empty(*self);
        }
        match self {
            GooseRequestError::Timeout => String::from_str("Timeout"),
            GooseRequestError::ConnectionRefused => String::from_str("ConnectionRefused"),
            GooseRequestError::TlsError => String::from_str("TlsError"),
            GooseRequestError::BadStatus(code) => {
                let mut label = String::new();
                push_str(&mut label, "BadStatus(");
                push_decimal(&mut label, *code as u64);
                push_str(&mut label, ")");
                assert(label@ =~= error_label(*self));
                label
            },
            GooseRequestError::UserAbort => String::from_str("UserAbort"),
        }
    }
}

impl GooseRequestMetric {
    /// The record of a request that is about to be made: nothing is known of
    /// its outcome yet, and it counts as a success until it fails. The
    /// request is counted under `name`, or under its path where no name is
    /// given.
    pub fn new(
        method: GooseMethod,
        url: &str,
        path: &str,
        name: Option<&str>,
        body: &str,
        elapsed: u64,
        user: usize,
    ) -> (r: GooseRequestMetric)
        ensures
            r.well_formed(),
            r.elapsed == elapsed,
            r.raw.method == method,
            r.raw.url@ == url@,
            r.raw.body@ == body@,
            r.name@ == match name {
                Some(given) => given@,
                None => path@,
            },
            r.final_url@.len() == 0,
            !r.redirected,
            r.response_time == 0,
            r.status_code == 0,
            r.success,
            !r.update,
            r.user == user,
            r.error@.len() == 0,
            r.coordinated_omission_elapsed is None,
            r.user_cadence == 0,
    {
        let name = match name {
            Some(given) => String::from_str(given),
            None => String::from_str(path),
        };
        GooseRequestMetric {
            elapsed,
            raw: GooseRawRequest {
                method,
                url: String::from_str(url),
                body: String::from_str(body),
            },
            name,
            final_url: String::new(),
            redirected: false,
            response_time: 0,
            status_code: 0,
            success: true,
            update: false,
            user,
            error: String::new(),
            coordinated_omission_elapsed: None,
            user_cadence: 0,
        }
    }

    /// A response arrived. The request is a success where the status is one
    /// of the two hundreds, and else a failure by its status. It was
    /// redirected where the URL that answered is not the URL that was asked
    /// for.
    pub fn set_response(&mut self, final_url: &str, status_code: u16, response_time: u64)
        ensures
            final(self).well_formed(),
            final(self).elapsed == old(self).elapsed,
            final(self).raw == old(self).raw,
            final(self).name == old(self).name,
            final(self).final_url@ == final_url@,
            final(self).redirected == (final_url@ != old(self).raw.url@),
            final(self).response_time == response_time,
            final(self).status_code == status_code,
            final(self).success == is_success_status(status_code),
            final(self).update == old(self).update,
            final(self).user == old(self).user,
            final(self).error@ == if is_success_status(status_code) {
                Seq::<char>::empty()
            } else {
                error_label(GooseRequestError::BadStatus(status_code))
            },
            final(self).coordinated_omission_elapsed == old(self).coordinated_omission_elapsed,
            final(self).user_cadence == old(self).user_cadence,
    {
        self.redirected = !crate::aggregate::same_text(final_url, self.raw.url.as_str());
        self.final_url = String::from_str(final_url);
        self.response_time = response_time;
        self.status_code = status_code;
        if status_code >= 200 && status_code < 300 {
            self.success = true;
            self.error = String::new();
        } else {
            self.success = false;
            self.error = GooseRequestError::BadStatus(status_code).label();
        }
    }

    /// No response arrived, or the task gave the request up: the request is
    /// a failure under the label of the error.
    pub fn set_error(&mut self, error: GooseRequestError, response_time: u64)
        ensures
            final(self).well_formed(),
            !final(self).success,
            final(self).error@ == error_label(error),
            final(self).response_time == response_time,
            final(self).elapsed == old(self).elapsed,
            final(self).raw == old(self).raw,
            final(self).name == old(self).name,
            final(self).final_url == old(self).final_url,
            final(self).redirected == old(self).redirected,
            final(self).status_code == old(self).status_code,
            final(self).update == old(self).update,
            final(self).user == old(self).user,
            final(self).coordinated_omission_elapsed == old(self).coordinated_omission_elapsed,
            final(self).user_cadence == old(self).user_cadence,
    {
        self.success = false;
        self.error = error.label();
        self.response_time = response_time;
    }

    /// The task declares a request a failure although a response arrived.
    /// The record becomes a failure that replaces the one that was sent
    /// before, under `tag`, or as given up by the user where the tag is
    /// empty. The result is the record for the debug log: the tag, a copy of
    /// the record, the headers, and the body unless bodies are left out.
    pub fn set_failure(
        &mut self,
        tag: &str,
        header: Option<&str>,
        body: Option<&str>,
        no_debug_body: bool,
    ) -> (r: GooseDebug)
        ensures
            final(self).well_formed(),
            !final(self).success,
            final(self).update,
            final(self).error@ == if tag@.len() > 0 {
                tag@
            } else {
                error_label(GooseRequestError::UserAbort)
            },
            final(self).elapsed == old(self).elapsed,
            final(self).raw == old(self).raw,
            final(self).name == old(self).name,
            final(self).final_url == old(self).final_url,
            final(self).redirected == old(self).redirected,
            final(self).response_time == old(self).response_time,
            final(self).status_code == old(self).status_code,
            final(self).user == old(self).user,
            final(self).coordinated_omission_elapsed == old(self).coordinated_omission_elapsed,
            final(self).user_cadence == old(self).user_cadence,
            r.tag@ == tag@,
            r.request is Some && same_record(r.request.unwrap(), *final(self)),
            match header {
                Some(h) => r.header is Some && r.header.unwrap()@ == h@,
                None => r.header is None,
            },
            match body {
                Some(b) => if no_debug_body {
                    r.body is None
                } else {
                    r.body is Some && r.body.unwrap()@ == b@
                },
                None => r.body is None,
            },
    {
        self.success = false;
        self.update = true;
        if tag.is_empty() {
            self.error = GooseRequestError::UserAbort.label();
        } else {
            self.error = String::from_str(tag);
        }
        let body = if no_debug_body {
            None
        } else {
            match body {
                Some(b) => Some(String::from_str(b)),
                None => None,
            }
        };
        let header = match header {
            Some(h) => Some(String::from_str(h)),
            None => None,
        };
        GooseDebug { tag: String::from_str(tag), request: Some(self.duplicate()), header, body }
    }

    /// A copy of the record.
    pub fn duplicate(&self) -> (r: GooseRequestMetric)
        ensures
            same_record(r, *self),
    {
        GooseRequestMetric {
            elapsed: self.elapsed,
            raw: GooseRawRequest {
                method: self.raw.method,
                url: self.raw.url.clone(),
                body: self.raw.body.clone(),
            },
            name: self.name.clone(),
            final_url: self.final_url.clone(),
            redirected: self.redirected,
            response_time: self.response_time,
            status_code: self.status_code,
            success: self.success,
            update: self.update,
            user: self.user,
            error: self.error.clone(),
            coordinated_omission_elapsed: self.coordinated_omission_elapsed,
            user_cadence: self.user_cadence,
        }
    }

    /// The record for the error log: there is one for each request that
    /// failed, and none for a success. It holds what the record of the
    /// request holds of the request, and its error.
    pub fn error_record(&self) -> (r: Option<GooseErrorMetric>)
        requires
            self.well_formed(),
        ensures
            r is Some <==> !self.success,
            r matches Some(e) ==> {
                &&& e.elapsed == self.elapsed
                &&& e.raw.method == self.raw.method
                &&& e.raw.url@ == self.raw.url@
                &&& e.raw.body@ == self.raw.body@
                &&& e.name@ == self.name@
                &&& e.final_url@ == self.final_url@
                &&& e.redirected == self.redirected
                &&& e.response_time == self.response_time
                &&& e.status_code == self.status_code
                &&& e.user == self.user
                &&& e.error@ == self.error@
                &&& e.error@.len() > 0
            },
    {
        if self.success {
            None
        } else {
            Some(
                GooseErrorMetric {
                    elapsed: self.elapsed,
                    raw: GooseRawRequest {
                        method: self.raw.method,
                        url: self.raw.url.clone(),
                        body: self.raw.body.clone(),
                    },
                    name: self.name.clone(),
                    final_url: self.final_url.clone(),
                    redirected: self.redirected,
                    response_time: self.response_time,
                    status_code: self.status_code,
                    user: self.user,
                    error: self.error.clone(),
                },
            )
        }
    }
}

/// Two records hold the same.
pub open spec fn same_record(a: GooseRequestMetric, b: GooseRequestMetric) -> bool {
    &&& a.elapsed == b.elapsed
    &&& a.raw.method == b.raw.method
    &&& a.raw.url@ == b.raw.url@
    &&& a.raw.body@ == b.raw.body@
    &&& a.name@ == b.name@
    &&& a.final_url@ == b.final_url@
    &&& a.redirected == b.redirected
    &&& a.response_time == b.response_time
    &&& a.status_code == b.status_code
    &&& a.success == b.success
    &&& a.update == b.update
    &&& a.user == b.user
    &&& a.error@ == b.error@
    &&& a.coordinated_omission_elapsed == b.coordinated_omission_elapsed
    &&& a.user_cadence == b.user_cadence
}

} // verus!
