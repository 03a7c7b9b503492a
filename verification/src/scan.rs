//! The scan extractor: copies one scan out of the driver's buffer, reading
//! by reading, into an owned sequence of samples.
//!
//! The extractor never touches the buffer itself. It says which reading it
//! needs next ([`ScanRequest`]), is told what the driver answered, and keeps
//! the samples in the order in which the driver reports them: first the
//! number of samples, then angle, distance and signal strength of each
//! sample, by ascending index.

use vstd::prelude::*;

verus! {

/// One measurement of a scan, in the driver's units.
#[derive(Clone, Copy, Debug, PartialEq, Eq)]
pub struct Sample {
    pub angle: i32,
    pub distance: i32,
    pub signal_strength: i32,
}

/// The reading that the extractor needs from the driver next.
#[derive(Clone, Copy, Debug, PartialEq, Eq)]
pub enum ScanRequest {
    /// The number of samples in the scan behind this reference.
    SampleCount { scan: usize },
    /// The angle of the sample at `index`.
    Angle { scan: usize, index: i32 },
    /// The distance of the sample at `index`.
    Distance { scan: usize, index: i32 },
    /// The signal strength of the sample at `index`.
    SignalStrength { scan: usize, index: i32 },
    /// Nothing: every sample has been copied.
    Done,
}

/// The readings that have come in of the sample that is being copied.
#[derive(Clone, Copy, Debug, PartialEq, Eq)]
pub enum Partial {
    /// None yet.
    Nothing,
    /// Its angle.
    Angle { angle: i32 },
    /// Its angle and its distance.
    Distance { angle: i32, distance: i32 },
}

/// The number of samples to copy for a reported count: the count itself, and
/// none where the driver reports zero or less.
pub open spec fn expected(count: i32) -> nat {
    if count > 0 {
        count as nat
    } else {
        0
    }
}

/// An extraction in progress, as a plain value.
pub struct ScanState {
    /// The driver's reference to the scan buffer.
    pub scan: usize,
    /// The sample count, once the driver has reported it.
    pub count: Option<i32>,
    /// The samples copied so far, in the driver's order.
    pub samples: Seq<Sample>,
    /// What has been read of the next sample.
    pub partial: Partial,
}

impl ScanState {
    /// The state in which an extraction starts.
    pub open spec fn start(scan: usize) -> ScanState {
        ScanState { scan, count: None, samples: Seq::empty(), partial: Partial::Nothing }
    }

    /// No more samples have been copied than the driver reported, and nothing
    /// has been read before the count or beyond the last sample.
    pub open spec fn wf(self) -> bool {
        match self.count {
            None => self.samples.len() == 0 && self.partial is Nothing,
            Some(count) => {
                &&& self.samples.len() <= expected(count)
                &&& self.samples.len() == expected(count) ==> self.partial is Nothing
            },
        }
    }

    /// Whether every sample has been copied.
    pub open spec fn complete(self) -> bool {
        self.count matches Some(count) && self.samples.len() >= expected(count)
    }

    /// The reading to ask for next: first the count, then angle, distance and
    /// signal strength of each sample by ascending index, then nothing.
    pub open spec fn pending(self) -> ScanRequest {
        let scan = self.scan;
        let index = self.samples.len() as i32;
        if self.count is None {
            ScanRequest::SampleCount { scan }
        } else if self.complete() {
            ScanRequest::Done
        } else {
            match self.partial {
                Partial::Nothing => ScanRequest::Angle { scan, index },
                Partial::Angle { .. } => ScanRequest::Distance { scan, index },
                Partial::Distance { .. } => ScanRequest::SignalStrength { scan, index },
            }
        }
    }

    /// The state after the driver has answered the pending request with
    /// `reading`. Once the extraction is complete, nothing changes any more.
    pub open spec fn step(self, reading: i32) -> ScanState {
        if self.count is None {
            ScanState { count: Some(reading), ..self }
        } else if self.complete() {
            self
        } else {
            match self.partial {
                Partial::Nothing => ScanState { partial: Partial::Angle { angle: reading }, ..self },
                Partial::Angle { angle } => ScanState {
                    partial: Partial::Distance { angle, distance: reading },
                    ..self
                },
                Partial::Distance { angle, distance } => ScanState {
                    samples: self.samples.push(
                        Sample { angle, distance, signal_strength: reading },
                    ),
                    partial: Partial::Nothing,
                    ..self
                },
            }
        }
    }
}

/// Copies a scan out of the driver, one reading at a time.
#[derive(Debug)]
pub struct ScanExtractor {
    scan: usize,
    count: Option<i32>,
    samples: Vec<Sample>,
    partial: Partial,
}

impl View for ScanExtractor {
    type V = ScanState;

    closed spec fn view(&self) -> ScanState {
        ScanState {
            scan: self.scan,
            count: self.count,
            samples: self.samples@,
            partial: self.partial,
        }
    }
}

impl ScanExtractor {
    #[verifier::type_invariant]
    spec fn inv(self) -> bool {
        self@.wf()
    }

    /// Starts the extraction of the scan behind `scan`.
    pub fn new(scan: usize) -> (extractor: ScanExtractor)
        ensures
            extractor@ == ScanState::start(scan),
    {
        ScanExtractor { scan, count: None, samples: Vec::new(), partial: Partial::Nothing }
    }

    /// The reading to ask the driver for next.
    pub fn request(&self) -> (request: ScanRequest)
        ensures
            self@.wf(),
            request == self@.pending(),
    {
        proof {
            use_type_invariant(self);
        }
        let scan = self.scan;
        match self.count {
            None => ScanRequest::SampleCount { scan },
            Some(count) => {
                let copied = self.samples.len();
                if count <= 0 || copied >= count as usize {
                    ScanRequest::Done
                } else {
                    let index = copied as i32;
                    match self.partial {
                        Partial::Nothing => ScanRequest::Angle { scan, index },
                        Partial::Angle { .. } => ScanRequest::Distance { scan, index },
                        Partial::Distance { .. } => ScanRequest::SignalStrength { scan, index },
                    }
                }
            },
        }
    }

    /// Takes in the driver's answer to the pending request, and says which
    /// reading to ask for next.
    pub fn advance(self, reading: i32) -> (next: (ScanExtractor, ScanRequest))
        ensures
            next.0@ == self@.step(reading),
            next.1 == next.0@.pending(),
    {
        let pending = self.request();
        let ScanExtractor { scan, count, mut samples, partial } = self;
        let extractor = match (pending, partial) {
            (ScanRequest::SampleCount { .. }, _) => ScanExtractor {
                scan,
                count: Some(reading),
                samples,
                partial,
            },
            (ScanRequest::Done, _) => ScanExtractor { scan, count, samples, partial },
            (_, Partial::Nothing) => ScanExtractor {
                scan,
                count,
                samples,
                partial: Partial::Angle { angle: reading },
            },
            (_, Partial::Angle { angle }) => ScanExtractor {
                scan,
                count,
                samples,
                partial: Partial::Distance { angle, distance: reading },
            },
            (_, Partial::Distance { angle, distance }) => {
                samples.push(Sample { angle, distance, signal_strength: reading });
                ScanExtractor { scan, count, samples, partial: Partial::Nothing }
            },
        };
        let request = extractor.request();
        (extractor, request)
    }

    /// Hands out the samples once every one of them has been copied, and
    /// `None` before that.
    pub fn finish(self) -> (samples: Option<Vec<Sample>>)
        ensures
            match samples {
                Some(samples) => {
                    &&& self@.complete()
                    &&& samples@ == self@.samples
                    &&& samples@.len() == expected(self@.count->Some_0)
                },
                None => !self@.complete(),
            },
    {
        match self.request() {
            ScanRequest::Done => Some(self.samples),
            _ => None,
        }
    }
}

/// A scan as the driver holds it: the number of samples that it reports, and
/// the three readings that it reports at each index.
pub struct NativeScan {
    pub count: i32,
    pub angle: spec_fn(int) -> i32,
    pub distance: spec_fn(int) -> i32,
    pub signal_strength: spec_fn(int) -> i32,
}

impl NativeScan {
    /// The driver's answer to a request.
    pub open spec fn answer(self, request: ScanRequest) -> i32 {
        match request {
            ScanRequest::SampleCount { .. } => self.count,
            ScanRequest::Angle { index, .. } => (self.angle)(index as int),
            ScanRequest::Distance { index, .. } => (self.distance)(index as int),
            ScanRequest::SignalStrength { index, .. } => (self.signal_strength)(index as int),
            ScanRequest::Done => 0,
        }
    }

    /// The sample that the driver reports at `index`.
    pub open spec fn sample(self, index: int) -> Sample {
        Sample {
            angle: (self.angle)(index),
            distance: (self.distance)(index),
            signal_strength: (self.signal_strength)(index),
        }
    }

    /// The samples of the scan in the driver's order, as many as it reports.
    pub open spec fn samples(self) -> Seq<Sample> {
        Seq::new(expected(self.count), |index: int| self.sample(index))
    }
}

impl ScanState {
    /// The state after `rounds` requests, each answered by the driver from
    /// the scan that it holds.
    pub open spec fn exchange(self, native: NativeScan, rounds: nat) -> ScanState
        decreases rounds,
    {
        if rounds == 0 {
            self
        } else {
            self.step(native.answer(self.pending())).exchange(native, (rounds - 1) as nat)
        }
    }
}

proof fn lemma_exchange_copies_the_rest(state: ScanState, native: NativeScan, left: nat)
    requires
        state.count == Some(native.count),
        state.partial is Nothing,
        state.samples.len() + left == expected(native.count),
        state.samples == native.samples().take(state.samples.len() as int),
    ensures
        state.exchange(native, 3 * left) == (ScanState { samples: native.samples(), ..state }),
        forall|rounds: nat|
            rounds < 3 * left ==> !(#[trigger] state.exchange(native, rounds)).complete(),
    decreases left,
{
    if left == 0 {
        assert(state.samples == native.samples());
    } else {
        let copied = state.samples.len() as int;
        let first = state.step(native.answer(state.pending()));
        let second = first.step(native.answer(first.pending()));
        let next = second.step(native.answer(second.pending()));
        assert(next.samples == native.samples().take(copied + 1));
        lemma_exchange_copies_the_rest(next, native, (left - 1) as nat);
        assert(state.exchange(native, 3 * left) == next.exchange(native, (3 * left - 3) as nat))
            by {
            reveal_with_fuel(ScanState::exchange, 4);
        }
        assert forall|rounds: nat| rounds < 3 * left implies !(#[trigger] state.exchange(
            native,
            rounds,
        )).complete() by {
            reveal_with_fuel(ScanState::exchange, 4);
            if rounds >= 3 {
                assert(state.exchange(native, rounds) == next.exchange(
                    native,
                    (rounds - 3) as nat,
                ));
            }
        }
    }
}

/// An extraction copies the scan exactly. Against a driver that answers each
/// request from the scan that it holds, the extraction is complete after the
/// count and three readings per sample, and not before. It then holds as many
/// samples as the driver reports, none where the count is zero or less, and
/// at each index the angle, the distance and the signal strength that the
/// driver reports there.
pub proof fn lemma_extraction_is_faithful(scan: usize, native: NativeScan)
    ensures
        ({
            let end = ScanState::start(scan).exchange(native, 1 + 3 * expected(native.count));
            &&& end.complete()
            &&& end.samples == native.samples()
            &&& end.samples.len() == expected(native.count)
            &&& forall|index: int|
                0 <= index < expected(native.count) ==> end.samples[index] == native.sample(index)
        }),
        forall|rounds: nat|
            rounds <= 3 * expected(native.count) ==> !(#[trigger] ScanState::start(scan).exchange(
                native,
                rounds,
            )).complete(),
{
    let start = ScanState::start(scan);
    let counted = start.step(native.answer(start.pending()));
    let left = expected(native.count);
    assert(counted.samples == native.samples().take(0));
    lemma_exchange_copies_the_rest(counted, native, left);
    assert forall|rounds: nat| rounds <= 3 * left implies !(#[trigger] start.exchange(
        native,
        rounds,
    )).complete() by {
        if rounds >= 1 {
            assert(start.exchange(native, rounds) == counted.exchange(native, (rounds - 1) as nat));
        }
    }
}

} // verus!
