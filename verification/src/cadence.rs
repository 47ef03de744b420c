//! Coordinated omission: a user that is held up by a slow response makes
//! fewer requests than it would have, and so hides the delay from the
//! metrics. To make up for it, a user keeps track of the cadence of its
//! requests, and where a gap is much longer than the cadence it adds a
//! record for each request that it did not get to make.

use vstd::prelude::*;

use crate::metrics::{GooseRawRequest, GooseRequestMetric};

verus! {

/// How a user makes up for requests that it did not get to make.
#[derive(Debug, Clone, Copy, PartialEq, Eq, Structural)]
pub enum GooseCoordinatedOmissionMitigation {
    /// Not at all.
    Disabled,
    /// Against a cadence that is smoothed: each gap moves it half of the way.
    Average,
    /// Against the shortest gap seen.
    Minimum,
    /// Against the longest gap seen.
    Maximum,
}

/// A gap counts as a delay where it is longer than so many cadences.
pub const CADENCE_FACTOR: u64 = 2;

/// What a user knows of the cadence of its requests. Times are in
/// milliseconds.
#[derive(Debug, Clone, Copy, PartialEq, Eq, Structural)]
pub struct GooseCadence {
    /// How the user makes up for omitted requests.
    pub mode: GooseCoordinatedOmissionMitigation,
    /// The gap below which nothing counts as a delay.
    pub minimum_cadence: u64,
    /// The expected gap between two requests; zero before two requests were
    /// made.
    pub cadence: u64,
    /// When the last request was made.
    pub last_request: Option<u64>,
}

/// What a request means for the metrics.
#[derive(Debug, Clone, Copy, PartialEq, Eq, Structural)]
pub struct GooseOmission {
    /// The gap since the request before it.
    pub gap: u64,
    /// The cadence that the gap was held against.
    pub cadence: u64,
    /// How many requests the user did not get to make in the gap.
    pub omitted: u64,
}

/// The gap above which requests count as omitted: the larger of the minimum
/// cadence and the cadence times the factor.
pub open spec fn omission_threshold(minimum_cadence: u64, cadence: u64) -> int {
    if minimum_cadence as int > CADENCE_FACTOR * cadence {
        minimum_cadence as int
    } else {
        CADENCE_FACTOR * cadence
    }
}

/// How many requests were omitted in a gap: none where the mitigation is
/// disabled, where no cadence is known yet, or where the gap is no longer
/// than the threshold; else one for each cadence that fits in the gap, less
/// the one for the request that was made.
pub open spec fn omitted_requests(
    mode: GooseCoordinatedOmissionMitigation,
    minimum_cadence: u64,
    cadence: u64,
    gap: u64,
) -> int {
    if mode == GooseCoordinatedOmissionMitigation::Disabled || cadence == 0 || gap as int
        <= omission_threshold(minimum_cadence, cadence) {
        0
    } else {
        gap as int / cadence as int - 1
    }
}

/// The cadence after a gap: the gap itself where none was known; else the
/// middle between the two, the smaller, or the larger of the two.
pub open spec fn next_cadence(mode: GooseCoordinatedOmissionMitigation, cadence: u64, gap: u64) -> u64 {
    if cadence == 0 {
        gap
    } else {
        match mode {
            GooseCoordinatedOmissionMitigation::Disabled => cadence,
            GooseCoordinatedOmissionMitigation::Average => ((cadence + gap) / 2) as u64,
            GooseCoordinatedOmissionMitigation::Minimum => if gap < cadence {
                gap
            } else {
                cadence
            },
            GooseCoordinatedOmissionMitigation::Maximum => if gap > cadence {
                gap
            } else {
                cadence
            },
        }
    }
}

/// A record for a request that was omitted: the record of the request that
/// was made, marked as a failure with the error `CO`, and with the gap as
/// the time of the omission.
pub open spec fn is_backfill(record: GooseRequestMetric, made: GooseRequestMetric, gap: u64, cadence: u64) -> bool {
    &&& record.elapsed == made.elapsed
    &&& record.raw.method == made.raw.method
    &&& record.raw.url@ == made.raw.url@
    &&& record.raw.body@ == made.raw.body@
    &&& record.name@ == made.name@
    &&& record.final_url@ == made.final_url@
    &&& record.redirected == made.redirected
    &&& record.response_time == made.response_time
    &&& record.status_code == made.status_code
    &&& !record.success
    &&& record.update == made.update
    &&& record.user == made.user
    &&& record.error@ == "CO"@
    &&& record.coordinated_omission_elapsed == Some(gap)
    &&& record.user_cadence == cadence
}

impl GooseCadence {
    /// A cadence of which nothing is known yet.
    pub fn new(mode: GooseCoordinatedOmissionMitigation, minimum_cadence: u64) -> (r: GooseCadence)
        ensures
            r == (GooseCadence { mode, minimum_cadence, cadence: 0, last_request: None }),
    {
        GooseCadence { mode, minimum_cadence, cadence: 0, last_request: None }
    }

    /// A request was made at `now`. The result says how long the gap since
    /// the request before it was, against which cadence it was held, and how
    /// many requests were omitted in it. The first request has no gap. A
    /// clock that went back counts as no gap.
    pub fn observe(&mut self, now: u64) -> (r: GooseOmission)
        ensures
            final(self).mode == old(self).mode,
            final(self).minimum_cadence == old(self).minimum_cadence,
            final(self).last_request == Some(now),
            r.cadence == old(self).cadence,
            match old(self).last_request {
                None => r.gap == 0 && r.omitted == 0 && final(self).cadence == old(self).cadence,
                Some(last) => {
                    &&& r.gap == if now >= last {
                        (now - last) as u64
                    } else {
                        0
                    }
                    &&& r.omitted == omitted_requests(
                        old(self).mode,
                        old(self).minimum_cadence,
                        old(self).cadence,
                        r.gap,
                    )
                    &&& final(self).cadence == next_cadence(
                        old(self).mode,
                        old(self).cadence,
                        r.gap,
                    )
                },
            },
    {
        let cadence = self.cadence;
        let last = self.last_request;
        self.last_request = Some(now);
        match last {
            None => GooseOmission { gap: 0, cadence, omitted: 0 },
            Some(last) => {
                let gap: u64 = if now >= last {
                    now - last
                } else {
                    0
                };
                let threshold: u128 = if (self.minimum_cadence as u128) > 2 * (cadence as u128) {
                    self.minimum_cadence as u128
                } else {
                    2 * (cadence as u128)
                };
                let disabled = match self.mode {
                    GooseCoordinatedOmissionMitigation::Disabled => true,
                    _ => false,
                };
                let omitted: u64 = if disabled || cadence == 0 || (gap as u128) <= threshold {
                    0
                } else {
                    assert(gap as int / cadence as int >= 1) by (nonlinear_arith)
                        requires
                            gap > 2 * cadence,
                            cadence > 0,
                    ;
                    gap / cadence - 1
                };
                self.cadence = if cadence == 0 {
                    gap
                } else {
                    match self.mode {
                        GooseCoordinatedOmissionMitigation::Disabled => cadence,
                        GooseCoordinatedOmissionMitigation::Average => (((cadence as u128) + (
                        gap as u128)) / 2) as u64,
                        GooseCoordinatedOmissionMitigation::Minimum => if gap < cadence {
                            gap
                        } else {
                            cadence
                        },
                        GooseCoordinatedOmissionMitigation::Maximum => if gap > cadence {
                            gap
                        } else {
                            cadence
                        },
                    }
                };
                GooseOmission { gap, cadence, omitted }
            },
        }
    }
}

impl GooseRequestMetric {
    /// A record for a request that was omitted while this one was held up.
    pub fn backfill(&self, gap: u64, cadence: u64) -> (r: GooseRequestMetric)
        ensures
            is_backfill(r, *self, gap, cadence),
            r.well_formed(),
    {
        let error = String::from_str("CO");
        proof {
            reveal_strlit("CO");
        }
        GooseRequestMetric {
            elapsed: self.elapsed,
            raw: GooseRawRequest {
                method: self.raw.method,
                url: self.raw.url.clone(),
                body: self.raw.body.clone(),
            },
            name: self.name.clone(),
            final_url: self.final_url.clone(),
            redirected: self.redirected,
            response_time: self.response_time,
            status_code: self.status_code,
            success: false,
            update: self.update,
            user: self.user,
            error,
            coordinated_omission_elapsed: Some(gap),
            user_cadence: cadence,
        }
    }

    /// The records for the requests that were omitted while this one was
    /// held up: one for each, all alike.
    pub fn backfilled(&self, omission: GooseOmission) -> (r: Vec<GooseRequestMetric>)
        ensures
            r@.len() == omission.omitted,
            forall|i: int|
                0 <= i < r@.len() ==> is_backfill(
                    #[trigger] r@[i],
                    *self,
                    omission.gap,
                    omission.cadence,
                ),
    {
        let mut records: Vec<GooseRequestMetric> = Vec::new();
        let mut made: u64 = 0;
        while made < omission.omitted
            invariant
                made <= omission.omitted,
                records@.len() == made,
                forall|i: int|
                    0 <= i < records@.len() ==> is_backfill(
                        #[trigger] records@[i],
                        *self,
                        omission.gap,
                        omission.cadence,
                    ),
            decreases omission.omitted - made,
        {
            records.push(self.backfill(omission.gap, omission.cadence));
            made += 1;
        }
        records
    }
}

} // verus!
