use vstd::prelude::*;
use crate::errors::{ForestError, ForestResult};

verus! {

/// One unit of processing over a value of type `T`.
///
/// `accepts` says on which inputs the stage may run, and `yields` which
/// outcomes it may give on such an input.
pub trait Pipe<T>: Sized {
    spec fn accepts(&self, input: T) -> bool;

    spec fn yields(&self, input: T, output: ForestResult<T>) -> bool;

    fn process(&self, input: T) -> (r: ForestResult<T>)
        requires
            self.accepts(input),
        ensures
            self.yields(input, r),
    ;
}

/// `trace` is a run in which every stage of `pipes` succeeded in turn:
/// `trace[k]` went into stage `k`, which gave back `trace[k + 1]`.
pub open spec fn successful_run<T, P: Pipe<T>>(pipes: Seq<P>, trace: Seq<T>) -> bool {
    &&& trace.len() == pipes.len() + 1
    &&& forall|k: int| 0 <= k < pipes.len() ==> #[trigger] pipes[k].yields(trace[k], Ok(trace[k + 1]))
}

/// Executing `pipes` on `input` may end in `r`: either every stage succeeded
/// and `r` holds the last stage's output, or the stages before some stage `k`
/// succeeded, stage `k` failed with the error in `r`, and no later stage ran.
pub open spec fn runs_to<T, P: Pipe<T>>(pipes: Seq<P>, input: T, r: ForestResult<T>) -> bool {
    match r {
        Ok(v) => exists|trace: Seq<T>|
            #[trigger] successful_run(pipes, trace) && trace[0] == input && trace.last() == v,
        Err(e) => exists|k: int, trace: Seq<T>|
            0 <= k < pipes.len() && #[trigger] successful_run(pipes.take(k), trace) && trace[0]
                == input && pipes[k].yields(trace[k], Err(e)),
    }
}

/// Every stage of `pipes` runs on every input.
pub open spec fn all_accept<T, P: Pipe<T>>(pipes: Seq<P>) -> bool {
    forall|k: int, x: T| 0 <= k < pipes.len() ==> #[trigger] pipes[k].accepts(x)
}

/// A pipeline with no stages gives its input back unchanged, and succeeds.
pub proof fn lemma_empty_pipeline_is_identity<T, P: Pipe<T>>(
    pipes: Seq<P>,
    input: T,
    r: ForestResult<T>,
)
    requires
        pipes.len() == 0,
        runs_to(pipes, input, r),
    ensures
        r == Ok::<T, ForestError>(input),
{
    match r {
        Ok(v) => {
            let trace = choose|trace: Seq<T>|
                #[trigger] successful_run(pipes, trace) && trace[0] == input && trace.last() == v;
            assert(trace.len() == 1);
        },
        Err(e) => {},
    }
}

/// An ordered chain of stages, run one after the other over one value.
pub struct Pipeline<P> {
    pipes: Vec<P>,
}

impl<P> Pipeline<P> {
    /// The stages, in the order in which they run.
    pub closed spec fn stages(&self) -> Seq<P> {
        self.pipes@
    }

    /// A pipeline with no stages.
    pub fn new() -> (r: Self)
        ensures
            r.stages() == Seq::<P>::empty(),
    {
        Pipeline { pipes: Vec::new() }
    }

    /// Appends a stage after the existing ones.
    pub fn add_pipe(&mut self, pipe: P)
        ensures
            final(self).stages() == old(self).stages().push(pipe),
    {
        self.pipes.push(pipe);
    }

    /// Runs the stages in order, each on the previous one's output, and stops
    /// at the first failure, whose error is returned as it came.
    pub fn execute<T>(&self, input: T) -> (r: ForestResult<T>) where P: Pipe<T>
        requires
            all_accept(self.stages()),
        ensures
            runs_to(self.stages(), input, r),
            self.stages().len() == 0 ==> r == Ok::<T, ForestError>(input),
    {
        let ghost pipes = self.pipes@;
        let ghost mut trace: Seq<T> = seq![input];
        let mut result = input;
        let mut i: usize = 0;
        while i < self.pipes.len()
            invariant
                pipes == self.pipes@,
                all_accept(pipes),
                i <= pipes.len(),
                successful_run(pipes.take(i as int), trace),
                trace[0] == input,
                trace.last() == result,
            decreases pipes.len() - i,
        {
            assert(pipes[i as int].accepts(result));
            match self.pipes[i].process(result) {
                Ok(v) => {
                    proof {
                        let old_trace = trace;
                        trace = trace.push(v);
                        assert forall|k: int| 0 <= k < i + 1 implies #[trigger] pipes.take(
                            i + 1,
                        )[k].yields(trace[k], Ok(trace[k + 1])) by {
                            if k < i {
                                assert(pipes.take(i as int)[k] == pipes.take(i + 1)[k]);
                                assert(trace[k] == old_trace[k]);
                                assert(trace[k + 1] == old_trace[k + 1]);
                            }
                        }
                    }
                    result = v;
                },
                Err(e) => {
                    assert(pipes[i as int].yields(trace[i as int], Err(e)));
                    return Err(e);
                },
            }
            i = i + 1;
        }
        proof {
            assert(pipes.take(pipes.len() as int) =~= pipes);
        }
        Ok(result)
    }
}

/// A stage that checks its input with a predicate and passes it on unchanged.
pub struct ValidationPipe<F> {
    validator: F,
}

impl<F> ValidationPipe<F> {
    pub closed spec fn predicate(&self) -> F {
        self.validator
    }

    pub fn new(validator: F) -> (r: Self)
        ensures
            r.predicate() == validator,
    {
        ValidationPipe { validator }
    }
}

impl<T, F: Fn(&T) -> ForestResult<()>> Pipe<T> for ValidationPipe<F> {
    open spec fn accepts(&self, input: T) -> bool {
        self.predicate().requires((&input,))
    }

    /// Success hands back the very input; a failure is the predicate's error.
    open spec fn yields(&self, input: T, output: ForestResult<T>) -> bool {
        match output {
            Ok(v) => v == input && self.predicate().ensures((&input,), Ok(())),
            Err(e) => self.predicate().ensures((&input,), Err(e)),
        }
    }

    fn process(&self, input: T) -> (r: ForestResult<T>) {
        let verdict = (self.validator)(&input);
        match verdict {
            Ok(u) => {
                assert(u == ());
                Ok(input)
            },
            Err(e) => Err(e),
        }
    }
}

/// A stage that maps its input through a function.
pub struct TransformPipe<F> {
    transformer: F,
}

impl<F> TransformPipe<F> {
    pub closed spec fn mapping(&self) -> F {
        self.transformer
    }

    pub fn new(transformer: F) -> (r: Self)
        ensures
            r.mapping() == transformer,
    {
        TransformPipe { transformer }
    }
}

impl<T, F: Fn(T) -> ForestResult<T>> Pipe<T> for TransformPipe<F> {
    open spec fn accepts(&self, input: T) -> bool {
        self.mapping().requires((input,))
    }

    open spec fn yields(&self, input: T, output: ForestResult<T>) -> bool {
        self.mapping().ensures((input,), output)
    }

    fn process(&self, input: T) -> (r: ForestResult<T>) {
        (self.transformer)(input)
    }
}

/// A stage whose mapping may wait on outside work before it resolves; the
/// mapping is handed the input and its outcome is the stage's outcome.
pub struct AsyncTransformPipe<F> {
    transformer: F,
}

impl<F> AsyncTransformPipe<F> {
    pub closed spec fn mapping(&self) -> F {
        self.transformer
    }

    pub fn new(transformer: F) -> (r: Self)
        ensures
            r.mapping() == transformer,
    {
        AsyncTransformPipe { transformer }
    }
}

impl<T, F: Fn(T) -> ForestResult<T>> Pipe<T> for AsyncTransformPipe<F> {
    open spec fn accepts(&self, input: T) -> bool {
        self.mapping().requires((input,))
    }

    open spec fn yields(&self, input: T, output: ForestResult<T>) -> bool {
        self.mapping().ensures((input,), output)
    }

    fn process(&self, input: T) -> (r: ForestResult<T>) {
        (self.transformer)(input)
    }
}


/// A stage of any of the three kinds, so that one pipeline can mix them.
pub enum Stage<V, F, G> {
    Validation(ValidationPipe<V>),
    Transform(TransformPipe<F>),
    AsyncTransform(AsyncTransformPipe<G>),
}

impl<
    T,
    V: Fn(&T) -> ForestResult<()>,
    F: Fn(T) -> ForestResult<T>,
    G: Fn(T) -> ForestResult<T>,
> Pipe<T> for Stage<V, F, G> {
    open spec fn accepts(&self, input: T) -> bool {
        match self {
            Stage::Validation(p) => <ValidationPipe<V> as Pipe<T>>::accepts(p, input),
            Stage::Transform(p) => <TransformPipe<F> as Pipe<T>>::accepts(p, input),
            Stage::AsyncTransform(p) => <AsyncTransformPipe<G> as Pipe<T>>::accepts(p, input),
        }
    }

    /// The outcomes of the stage it holds.
    open spec fn yields(&self, input: T, output: ForestResult<T>) -> bool {
        match self {
            Stage::Validation(p) => <ValidationPipe<V> as Pipe<T>>::yields(p, input, output),
            Stage::Transform(p) => <TransformPipe<F> as Pipe<T>>::yields(p, input, output),
            Stage::AsyncTransform(p) => <AsyncTransformPipe<G> as Pipe<T>>::yields(
                p,
                input,
                output,
            ),
        }
    }

    fn process(&self, input: T) -> (r: ForestResult<T>) {
        match self {
            Stage::Validation(p) => p.process(input),
            Stage::Transform(p) => p.process(input),
            Stage::AsyncTransform(p) => p.process(input),
        }
    }
}

} // verus!
