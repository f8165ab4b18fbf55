use crate::error::{ContractError, ThresholdError};
use crate::state::Stream;
use std::collections::HashMap;
use vstd::prelude::*;

verus! {

broadcast use vstd::std_specs::hash::group_hash_axioms;

/// Minimum amount of in tokens a stream must have spent for its sale to be valid, per stream.
pub struct ThresholdState {
    thresholds: HashMap<u64, u128>,
}

impl View for ThresholdState {
    type V = Map<u64, u128>;

    closed spec fn view(&self) -> Map<u64, u128> {
        self.thresholds@
    }
}

/// Whether a stream's sale fails its threshold: a threshold is set and not reached.
pub open spec fn threshold_not_reached(thresholds: Map<u64, u128>, stream_id: u64, spent_in: u128) -> bool {
    thresholds.contains_key(stream_id) && spent_in < thresholds[stream_id]
}

/// Whether a stream has reached a threshold that was set for it.
pub open spec fn threshold_reached(thresholds: Map<u64, u128>, stream_id: u64, spent_in: u128) -> bool {
    thresholds.contains_key(stream_id) && spent_in >= thresholds[stream_id]
}

impl ThresholdState {
    /// No threshold set for any stream.
    pub fn new() -> (s: ThresholdState)
        ensures
            s@ == Map::<u64, u128>::empty(),
    {
        ThresholdState { thresholds: HashMap::new() }
    }

    /// Records the threshold of a stream if one is given; a zero threshold is refused.
    pub fn set_threshold_if_any(&mut self, threshold: Option<u128>, stream_id: u64) -> (r: Result<
        (),
        ThresholdError,
    >)
        ensures
            match threshold {
                None => r == Ok::<(), ThresholdError>(()) && final(self)@ == old(self)@,
                Some(t) => if t == 0 {
                    r == Err::<(), ThresholdError>(ThresholdError::ThresholdZero) && final(self)@
                        == old(self)@
                } else {
                    r == Ok::<(), ThresholdError>(()) && final(self)@ == old(self)@.insert(
                        stream_id,
                        t,
                    )
                },
            },
    {
        match threshold {
            Some(t) => {
                if t == 0 {
                    return Err(ThresholdError::ThresholdZero);
                }
                self.thresholds.insert(stream_id, t);
                Ok(())
            },
            None => Ok(()),
        }
    }

    /// Fails when a threshold is set for the stream and its spent in tokens are below it.
    pub fn error_if_not_reached(&self, stream_id: u64, stream: &Stream) -> (r: Result<
        (),
        ThresholdError,
    >)
        ensures
            threshold_not_reached(self@, stream_id, stream.spent_in) ==> r == Err::<
                (),
                ThresholdError,
            >(ThresholdError::ThresholdNotReached),
            !threshold_not_reached(self@, stream_id, stream.spent_in) ==> r == Ok::<
                (),
                ThresholdError,
            >(()),
    {
        match self.thresholds.get(&stream_id) {
            Some(t) => {
                if stream.spent_in < *t {
                    Err(ThresholdError::ThresholdNotReached)
                } else {
                    Ok(())
                }
            },
            None => Ok(()),
        }
    }

    /// Fails when a threshold is set for the stream and its spent in tokens reach it.
    pub fn error_if_reached(&self, stream_id: u64, stream: &Stream) -> (r: Result<
        (),
        ThresholdError,
    >)
        ensures
            threshold_reached(self@, stream_id, stream.spent_in) ==> r == Err::<
                (),
                ThresholdError,
            >(ThresholdError::ThresholdReached),
            !threshold_reached(self@, stream_id, stream.spent_in) ==> r == Ok::<
                (),
                ThresholdError,
            >(()),
    {
        match self.thresholds.get(&stream_id) {
            Some(t) => {
                if stream.spent_in >= *t {
                    Err(ThresholdError::ThresholdReached)
                } else {
                    Ok(())
                }
            },
            None => Ok(()),
        }
    }

    /// Whether a threshold is set for the stream.
    pub fn check_if_threshold_set(&self, stream_id: u64) -> (r: Result<bool, ThresholdError>)
        ensures
            r == Ok::<bool, ThresholdError>(self@.contains_key(stream_id)),
    {
        Ok(self.thresholds.contains_key(&stream_id))
    }

    /// The threshold set for the stream, if any.
    pub fn get_threshold(&self, stream_id: u64) -> (r: Result<Option<u128>, ContractError>)
        ensures
            r == Ok::<Option<u128>, ContractError>(
                if self@.contains_key(stream_id) {
                    Some(self@[stream_id])
                } else {
                    None
                },
            ),
    {
        match self.thresholds.get(&stream_id) {
            Some(t) => Ok(Some(*t)),
            None => Ok(None),
        }
    }
}

} // verus!
