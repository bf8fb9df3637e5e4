//! A streaming linear resampler.
//!
//! The resampler walks through a source stream at `source_rate` and answers
//! requests at `target_rate`. It decides, exactly, between which two source
//! samples each output sample lies and how far it lies from the first. It
//! does not compute with the samples: an output sample is handed out as a
//! [`Blend`], the two neighbours and the weight of the second, for the caller
//! to evaluate in the arithmetic of its sample type.

use vstd::prelude::*;

verus! {

/// One output sample: the point between `prev` and `next` that lies the
/// fraction `numerator / denominator` of the way from `prev` to `next`. With
/// that fraction called `t`, its value is `(1 - t) * prev + t * next`, and
/// `(1 - t) * prev` where the source has ended and there is no `next`.
#[derive(Debug, Clone, Copy, PartialEq)]
pub struct Blend<S> {
    pub prev: S,
    pub next: Option<S>,
    pub numerator: u128,
    pub denominator: u32,
}

impl<S> Blend<S> {
    /// Whether the output sample is `prev` itself.
    pub open spec fn is_prev(self) -> bool {
        self.numerator == 0
    }
}

/// The state of a resampler: the two source samples around the current
/// position, the source samples still to come, and the distance walked
/// beyond `prev`, counted in units of `1 / source_rate` of an output step.
/// In these units an output step is `source_rate` long and a source step is
/// `target_rate` long.
pub struct Resampling<S> {
    pub prev: Option<S>,
    pub next: Option<S>,
    pub rest: Seq<S>,
    pub step: nat,
    pub target_rate: nat,
    pub source_rate: nat,
}

impl<S> Resampling<S> {
    /// The state before the first request.
    pub open spec fn fresh(samples: Seq<S>, target_rate: nat, source_rate: nat) -> Self {
        Resampling {
            prev: if samples.len() > 0 {
                Some(samples[0])
            } else {
                None
            },
            next: if samples.len() > 1 {
                Some(samples[1])
            } else {
                None
            },
            rest: if samples.len() > 2 {
                samples.subrange(2, samples.len() as int)
            } else {
                Seq::empty()
            },
            step: 0,
            target_rate,
            source_rate,
        }
    }

    /// The state one source sample further on: what was `next` is `prev`,
    /// and the source hands out a new `next` if it has one.
    pub open spec fn pulled(self) -> Self {
        Resampling {
            prev: self.next,
            next: if self.rest.len() > 0 {
                Some(self.rest[0])
            } else {
                None
            },
            rest: if self.rest.len() > 0 {
                self.rest.drop_first()
            } else {
                self.rest
            },
            ..self
        }
    }

    /// The state in which a request is answered: where the distance walked
    /// has reached a whole source step, the source moves on by one sample and
    /// the distance shrinks by that step. The source moves on at most once
    /// per request.
    pub open spec fn turned(self) -> Self {
        if self.step >= self.target_rate {
            Resampling { step: (self.step - self.target_rate) as nat, ..self.pulled() }
        } else {
            self
        }
    }

    /// Whether the source has nothing more to give.
    pub open spec fn exhausted(self) -> bool {
        self.prev is None
    }

    /// The answer to a request: the blend of the two samples around the
    /// position, or none once the source is exhausted.
    pub open spec fn output(self) -> Option<Blend<S>> {
        if self.exhausted() || self.turned().exhausted() {
            None
        } else {
            Some(
                Blend {
                    prev: self.turned().prev->0,
                    next: self.turned().next,
                    numerator: self.turned().step as u128,
                    denominator: self.target_rate as u32,
                },
            )
        }
    }

    /// The state after a request. A request that is answered walks one
    /// output step on.
    pub open spec fn after(self) -> Self {
        if self.exhausted() {
            self
        } else if self.turned().exhausted() {
            self.turned()
        } else {
            Resampling { step: self.turned().step + self.source_rate, ..self.turned() }
        }
    }

    /// The state after a number of requests.
    pub open spec fn after_requests(self, requests: nat) -> Self
        decreases requests,
    {
        if requests == 0 {
            self
        } else {
            self.after_requests((requests - 1) as nat).after()
        }
    }
}

/// The resampler.
pub struct LinearInterpolator<S> {
    samples: Vec<S>,
    /// The number of source samples handed to `prev` and `next` so far.
    position: usize,
    prev: Option<S>,
    next: Option<S>,
    target_rate: u32,
    source_rate: u32,
    step: u128,
}

impl<S> LinearInterpolator<S> {
    /// The number of times the source was asked for a sample, counting the
    /// requests that it could not serve.
    spec fn pulls(self) -> int {
        self.position + (if self.next is None {
            1int
        } else {
            0int
        }) + (if self.prev is None {
            1int
        } else {
            0int
        })
    }

    #[verifier::type_invariant]
    spec fn consistent(self) -> bool {
        &&& self.position <= self.samples.len()
        &&& self.target_rate > 0
        &&& self.source_rate > 0
        &&& (self.next is None ==> self.position == self.samples.len())
        &&& (self.prev is None ==> self.next is None)
        &&& self.step < self.target_rate + self.source_rate * (self.pulls() + 1)
    }
}

impl<S> View for LinearInterpolator<S> {
    type V = Resampling<S>;

    closed spec fn view(&self) -> Resampling<S> {
        Resampling {
            prev: self.prev,
            next: self.next,
            rest: self.samples@.subrange(self.position as int, self.samples.len() as int),
            step: self.step as nat,
            target_rate: self.target_rate as nat,
            source_rate: self.source_rate as nat,
        }
    }
}

impl<S: Copy> LinearInterpolator<S> {
    /// A resampler over a source stream recorded at `source_rate`, for
    /// output at `target_rate`. There is none where a rate is zero.
    pub fn new(samples: Vec<S>, target_rate: u32, source_rate: u32) -> (interpolator: Option<Self>)
        ensures
            (target_rate == 0 || source_rate == 0) <==> interpolator is None,
            interpolator matches Some(fresh) ==> fresh@ == Resampling::fresh(
                samples@,
                target_rate as nat,
                source_rate as nat,
            ),
    {
        if target_rate == 0 || source_rate == 0 {
            return None;
        }
        let length: usize = samples.len();
        let prev = if length > 0 {
            Some(samples[0])
        } else {
            None
        };
        let next = if length > 1 {
            Some(samples[1])
        } else {
            None
        };
        let position: usize = if length > 2 {
            2
        } else {
            length
        };
        proof {
            assert(samples@.subrange(position as int, length as int) =~= Resampling::fresh(
                samples@,
                target_rate as nat,
                source_rate as nat,
            ).rest);
            assert(0 < target_rate + source_rate * 1) by (nonlinear_arith)
                requires
                    target_rate > 0,
                    source_rate > 0,
            ;
            assert(source_rate as int * 1 <= source_rate as int * (position + (if next is None {
                1int
            } else {
                0int
            }) + (if prev is None {
                1int
            } else {
                0int
            }) + 1)) by (nonlinear_arith)
                requires
                    source_rate > 0,
                    position >= 0,
            ;
        }
        Some(
            LinearInterpolator {
                samples,
                position,
                prev,
                next,
                target_rate,
                source_rate,
                step: 0,
            },
        )
    }

    /// Answers one request: the next output sample, or none once the source
    /// is exhausted.
    pub fn next(&mut self) -> (blend: Option<Blend<S>>)
        ensures
            blend == old(self)@.output(),
            final(self)@ == old(self)@.after(),
    {
        proof {
            use_type_invariant(&*self);
        }
        let mut prev = match self.prev {
            Some(prev) => prev,
            None => {
                return None;
            },
        };
        if self.step >= self.target_rate as u128 {
            self.step = self.step - self.target_rate as u128;
            match self.next {
                Some(following) => {
                    prev = following;
                    self.prev = Some(following);
                    if self.position < self.samples.len() {
                        let sample = self.samples[self.position];
                        proof {
                            lemma_bound_grows(
                                self.source_rate as int,
                                self.pulls() + 1,
                                self.pulls() + 2,
                            );
                            assert(old(self)@.rest.drop_first() =~= self.samples@.subrange(
                                self.position + 1,
                                self.samples.len() as int,
                            ));
                        }
                        self.position = self.position + 1;
                        self.next = Some(sample);
                    } else {
                        proof {
                            lemma_bound_grows(
                                self.source_rate as int,
                                self.pulls() + 1,
                                self.pulls() + 2,
                            );
                        }
                        self.next = None;
                    }
                },
                None => {
                    proof {
                        lemma_bound_grows(
                            self.source_rate as int,
                            self.pulls() + 1,
                            self.pulls() + 2,
                        );
                    }
                    self.prev = None;
                    return None;
                },
            }
        }
        let blend = Blend {
            prev,
            next: self.next,
            numerator: self.step,
            denominator: self.target_rate,
        };
        proof {
            lemma_bound_grows(self.source_rate as int, 1, self.pulls() + 1);
            lemma_bound_grows(self.source_rate as int, self.pulls(), self.pulls() + 1);
            lemma_bound_fits(self.source_rate as int, self.pulls() + 1);
            assert(self.source_rate * (self.pulls() + 1) == self.source_rate * self.pulls()
                + self.source_rate) by (nonlinear_arith);
        }
        self.step = self.step + self.source_rate as u128;
        Some(blend)
    }
}

impl<S> Resampling<S> {
    /// The number of source samples that the resampler still holds or has
    /// still to come.
    pub open spec fn samples_left(self) -> nat {
        self.rest.len() + (if self.next is Some {
            1nat
        } else {
            0nat
        }) + (if self.prev is Some {
            1nat
        } else {
            0nat
        })
    }

    /// The distance that is left to walk before the source moves on.
    pub open spec fn gap(self) -> nat {
        if self.step < self.target_rate {
            (self.target_rate - self.step) as nat
        } else {
            0
        }
    }

    /// Requests leave the rates as they are.
    pub proof fn lemma_rates_stay(self, requests: nat)
        ensures
            self.after_requests(requests).target_rate == self.target_rate,
            self.after_requests(requests).source_rate == self.source_rate,
        decreases requests,
    {
        if requests > 0 {
            self.lemma_rates_stay((requests - 1) as nat);
        }
    }

    /// Every request that is answered brings the end nearer: it uses up a
    /// source sample, or, where it uses none up, it shortens the distance
    /// to the next one. So a resampler at positive rates answers only
    /// finitely many requests.
    pub proof fn lemma_request_brings_end_nearer(self)
        requires
            self.source_rate > 0,
            self.output() is Some,
        ensures
            self.after().samples_left() < self.samples_left() || (self.after().samples_left()
                == self.samples_left() && self.after().gap() < self.gap()),
    {
    }
}

/// Whether `sample` is the answer to a request, evaluated: the request has
/// an answer, and `sample` is what the evaluation that the caller has
/// brought makes of it.
pub open spec fn answers<S, E: Fn(Blend<S>) -> S>(
    start: Resampling<S>,
    evaluate: E,
    request: nat,
    sample: S,
) -> bool {
    start.after_requests(request).output() matches Some(blend) && call_ensures(
        evaluate,
        (blend,),
        sample,
    )
}

/// Whether `output` is a stream resampled from the state `start` on: its
/// samples are the answers to the requests, one after the other, each
/// evaluated by the evaluation that the caller has brought, up to the first
/// request that has no answer.
pub open spec fn resamples<S, E: Fn(Blend<S>) -> S>(
    start: Resampling<S>,
    evaluate: E,
    output: Seq<S>,
) -> bool {
    &&& start.after_requests(output.len()).output() is None
    &&& forall|request: int|
        0 <= request < output.len() ==> answers(
            start,
            evaluate,
            request as nat,
            #[trigger] output[request],
        )
}

impl<S: Copy> LinearInterpolator<S> {
    /// Resamples a whole stream recorded at `source_rate` for output at
    /// `target_rate`: every request is made, one after the other, until the
    /// source is exhausted, and every answer is evaluated in the arithmetic
    /// of the caller. There is no result where a rate is zero.
    pub fn resample<E: Fn(Blend<S>) -> S>(
        samples: Vec<S>,
        target_rate: u32,
        source_rate: u32,
        evaluate: &E,
    ) -> (resampled: Option<Vec<S>>)
        requires
            forall|blend: Blend<S>| call_requires(*evaluate, (blend,)),
        ensures
            (target_rate == 0 || source_rate == 0) <==> resampled is None,
            resampled matches Some(output) ==> resamples(
                Resampling::fresh(samples@, target_rate as nat, source_rate as nat),
                *evaluate,
                output@,
            ),
    {
        let mut interpolator = match Self::new(samples, target_rate, source_rate) {
            Some(interpolator) => interpolator,
            None => {
                return None;
            },
        };
        let ghost start = interpolator@;
        let mut output: Vec<S> = Vec::new();
        let mut answer = interpolator.next();
        while answer.is_some()
            invariant
                forall|blend: Blend<S>| call_requires(*evaluate, (blend,)),
                start.source_rate > 0,
                answer == start.after_requests(output.len() as nat).output(),
                interpolator@ == start.after_requests((output.len() + 1) as nat),
                forall|request: int|
                    0 <= request < output.len() ==> answers(
                        start,
                        *evaluate,
                        request as nat,
                        #[trigger] output@[request],
                    ),
            decreases
                    start.after_requests(output.len() as nat).samples_left(),
                    start.after_requests(output.len() as nat).gap(),
        {
            proof {
                start.lemma_rates_stay(output.len() as nat);
                start.after_requests(output.len() as nat).lemma_request_brings_end_nearer();
            }
            match answer {
                Some(blend) => {
                    let sample = evaluate(blend);
                    output.push(sample);
                },
                None => {},
            }
            answer = interpolator.next();
        }
        Some(output)
    }
}

/// A rate times a count does not shrink when the count grows.
proof fn lemma_bound_grows(rate: int, fewer: int, more: int)
    requires
        rate >= 0,
        fewer <= more,
    ensures
        rate * fewer <= rate * more,
{
    assert(rate * fewer <= rate * more) by (nonlinear_arith)
        requires
            rate >= 0,
            fewer <= more,
    ;
}

/// A thirty-two-bit rate times a count of a little over sixty-four bits
/// fits into a hundred and twenty-eight bits with room to spare.
proof fn lemma_bound_fits(rate: int, count: int)
    requires
        0 <= rate <= u32::MAX,
        0 <= count <= usize::MAX + 4,
    ensures
        rate * count + 2 * u32::MAX < u128::MAX,
{
    assert(rate * count <= 0xffff_ffff * (0xffff_ffff_ffff_ffff + 4)) by (nonlinear_arith)
        requires
            0 <= rate <= 0xffff_ffff,
            0 <= count <= 0xffff_ffff_ffff_ffff + 4,
    ;
}

/// The sample at a position of a stream, if the stream reaches that far.
pub open spec fn sample_at<S>(samples: Seq<S>, index: int) -> Option<S> {
    if 0 <= index < samples.len() {
        Some(samples[index])
    } else {
        None
    }
}

/// The samples of a stream from a position on.
pub open spec fn samples_from<S>(samples: Seq<S>, index: int) -> Seq<S> {
    if 0 <= index < samples.len() {
        samples.subrange(index, samples.len() as int)
    } else {
        Seq::empty()
    }
}

/// The state of a resampler at equal rates after a number of requests: from
/// the first answer on, it stands a whole step beyond the sample that it has
/// handed out last.
pub open spec fn unit_ratio_state<S>(samples: Seq<S>, rate: nat, requests: nat) -> Resampling<S> {
    if requests == 0 || samples.len() == 0 {
        Resampling::fresh(samples, rate, rate)
    } else if requests <= samples.len() {
        Resampling {
            prev: Some(samples[requests - 1]),
            next: sample_at(samples, requests as int),
            rest: samples_from(samples, requests as int + 1),
            step: rate,
            target_rate: rate,
            source_rate: rate,
        }
    } else {
        Resampling {
            prev: None,
            next: None,
            rest: Seq::empty(),
            step: 0,
            target_rate: rate,
            source_rate: rate,
        }
    }
}

/// At equal rates the resampler walks through the source one sample per
/// request.
pub proof fn lemma_unit_ratio_walk<S>(samples: Seq<S>, rate: nat, requests: nat)
    requires
        rate > 0,
    ensures
        Resampling::fresh(samples, rate, rate).after_requests(requests) == unit_ratio_state(
            samples,
            rate,
            requests,
        ),
    decreases requests,
{
    if requests > 0 {
        lemma_unit_ratio_walk(samples, rate, (requests - 1) as nat);
        let before = unit_ratio_state(samples, rate, (requests - 1) as nat);
        let here = unit_ratio_state(samples, rate, requests);
        assert(before.after().rest =~= here.rest);
        assert(before.after() == here);
    }
}

/// At equal rates the resampler reproduces its source: the answer to request
/// `k` is sample `k` itself, with no share of its neighbour, and there is no
/// answer beyond the last sample.
pub proof fn lemma_unit_ratio_reproduces<S>(samples: Seq<S>, rate: nat, request: nat)
    requires
        0 < rate <= u32::MAX,
    ensures
        request >= samples.len() ==> Resampling::fresh(samples, rate, rate).after_requests(
            request,
        ).output() is None,
        request < samples.len() ==> Resampling::fresh(samples, rate, rate).after_requests(
            request,
        ).output() == Some(
            Blend {
                prev: samples[request as int],
                next: sample_at(samples, request as int + 1),
                numerator: 0,
                denominator: rate as u32,
            },
        ),
{
    lemma_unit_ratio_walk(samples, rate, request);
}

} // verus!
