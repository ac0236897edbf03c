//! Reload strategies: which files one reload compiles, and what it delivers.
//!
//! The compile and reflect steps belong to the caller and are handed in as
//! function values, anew for every reload. Each is taken by value as a
//! function that can be called once, so a reload cannot try a step again. A
//! strategy fixes the paths they are called with and the way their outcomes
//! combine into one reload result.

use vstd::prelude::*;
use crate::error::WatchError;
use crate::message::{assemble, assembled, Message};
use crate::target::SrcPath;

verus! {

/// What one reload delivers: the message, or the error of the step that failed.
pub type Reloaded<S, N, E> = Result<Message<S, N>, WatchError<E>>;

/// `out` is a result that one reload can deliver, where `loadable` holds of
/// the outcomes that the compile step admits for the files of the strategy.
///
/// A message holds an artifact that the compile step can return, with entry
/// metadata that `parse` can return for that very artifact. An error is one
/// that the compile step can return, or one that `parse` can return for an
/// artifact that the compile step can return.
pub open spec fn delivered<S, N, E, P: FnOnce(&S) -> Result<N, WatchError<E>>>(
    loadable: spec_fn(Result<S, WatchError<E>>) -> bool,
    parse: P,
    out: Reloaded<S, N, E>,
) -> bool {
    match out {
        Ok(msg) => {
            &&& loadable(Ok(msg.shaders))
            &&& call_ensures(parse, (&msg.shaders,), Ok::<N, WatchError<E>>(msg.entry))
        },
        Err(e) => {
            ||| loadable(Err(e))
            ||| exists|shaders: S|
                {
                    &&& #[trigger] loadable(Ok(shaders))
                    &&& call_ensures(parse, (&shaders,), Err::<N, WatchError<E>>(e))
                }
        },
    }
}

/// `out` is a result that reflecting `loaded` with `parse` can deliver: the
/// load error as it is, or else the artifact combined with one of the
/// outcomes that `parse` admits for it.
pub open spec fn reflected<S, N, E, P: FnOnce(&S) -> Result<N, WatchError<E>>>(
    loaded: Result<S, WatchError<E>>,
    parse: P,
    out: Reloaded<S, N, E>,
) -> bool {
    match loaded {
        Ok(shaders) => exists|parsed: Result<N, WatchError<E>>|
            #[trigger] call_ensures(parse, (&shaders,), parsed) && out == assembled(shaders, parsed),
        Err(e) => out == Err::<Message<S, N>, WatchError<E>>(e),
    }
}

/// The outcomes that `load` admits for a vertex and fragment pair.
pub open spec fn graphics_loadable<S, E, L: FnOnce(&String, &String) -> Result<S, WatchError<E>>>(
    vertex: String,
    fragment: String,
    load: L,
) -> spec_fn(Result<S, WatchError<E>>) -> bool {
    |loaded: Result<S, WatchError<E>>| call_ensures(load, (&vertex, &fragment), loaded)
}

/// The outcomes that `load` admits for a compute source.
pub open spec fn compute_loadable<S, E, L: FnOnce(&String) -> Result<S, WatchError<E>>>(
    compute: String,
    load: L,
) -> spec_fn(Result<S, WatchError<E>>) -> bool {
    |loaded: Result<S, WatchError<E>>| call_ensures(load, (&compute,), loaded)
}

/// Whether `parse` may be called on every artifact that the compile step
/// can return.
pub open spec fn parses_what_loads<S, N, E, P: FnOnce(&S) -> Result<N, WatchError<E>>>(
    loadable: spec_fn(Result<S, WatchError<E>>) -> bool,
    parse: P,
) -> bool {
    forall|shaders: S| #[trigger] loadable(Ok(shaders)) ==> call_requires(parse, (&shaders,))
}

/// The second half of a reload, for every outcome of the first: a load error
/// is delivered as it is and `parse` is not called; a loaded artifact is
/// reflected once and combined with what came back.
pub fn reflect<S, N, E, P>(loaded: Result<S, WatchError<E>>, parse: P) -> (out: Reloaded<S, N, E>) where
    P: FnOnce(&S) -> Result<N, WatchError<E>>,

    requires
        loaded matches Ok(shaders) ==> call_requires(parse, (&shaders,)),
    ensures
        reflected(loaded, parse, out),
{
    match loaded {
        Ok(shaders) => {
            let parsed = parse(&shaders);
            assemble(shaders, parsed)
        },
        Err(e) => Err(e),
    }
}

/// Reflecting an outcome that the compile step admits delivers a result of
/// the reload.
pub proof fn reflected_is_delivered<S, N, E, P: FnOnce(&S) -> Result<N, WatchError<E>>>(
    loadable: spec_fn(Result<S, WatchError<E>>) -> bool,
    loaded: Result<S, WatchError<E>>,
    parse: P,
    out: Reloaded<S, N, E>,
)
    requires
        loadable(loaded),
        reflected(loaded, parse, out),
    ensures
        delivered(loadable, parse, out),
{
}

/// The strategy for a vertex and fragment pair.
#[derive(Debug, PartialEq, Eq)]
pub struct GraphicsLoader {
    pub vertex: String,
    pub fragment: String,
}

/// The strategy for a single compute source.
#[derive(Debug, PartialEq, Eq)]
pub struct ComputeLoader {
    pub compute: String,
}

/// The strategy of a session, one of the two.
#[derive(Debug, PartialEq, Eq)]
pub enum Loader {
    Graphics(GraphicsLoader),
    Compute(ComputeLoader),
}

/// The four steps that the caller supplies for one reload, as function
/// values. A reload uses the two that its strategy goes by and drops the
/// others uncalled.
pub struct Compiler<GL, GP, CL, CP> {
    /// Compiles a vertex and fragment pair, given their paths.
    pub load: GL,
    /// Reflects an artifact that `load` produced.
    pub parse: GP,
    /// Compiles a compute source, given its path.
    pub load_compute: CL,
    /// Reflects an artifact that `load_compute` produced.
    pub parse_compute: CP,
}

impl GraphicsLoader {
    /// Makes the strategy for the two paths and runs the initial reload, whose
    /// result is handed back beside it.
    pub fn create<S, N, E, L, P>(vertex: String, fragment: String, load: L, parse: P) -> (made: (
        Self,
        Reloaded<S, N, E>,
    )) where
        L: FnOnce(&String, &String) -> Result<S, WatchError<E>>,
        P: FnOnce(&S) -> Result<N, WatchError<E>>,

        requires
            call_requires(load, (&vertex, &fragment)),
            parses_what_loads(graphics_loadable(vertex, fragment, load), parse),
        ensures
            made.0.vertex == vertex,
            made.0.fragment == fragment,
            delivered(graphics_loadable(vertex, fragment, load), parse, made.1),
    {
        let loader = GraphicsLoader { vertex, fragment };
        let first = loader.reload(load, parse);
        (loader, first)
    }

    /// One reload: `load` is called once, with the vertex and the fragment
    /// path of this strategy; on success `parse` is called once, with the
    /// artifact. Nothing is retried.
    pub fn reload<S, N, E, L, P>(&self, load: L, parse: P) -> (out: Reloaded<S, N, E>) where
        L: FnOnce(&String, &String) -> Result<S, WatchError<E>>,
        P: FnOnce(&S) -> Result<N, WatchError<E>>,

        requires
            call_requires(load, (&self.vertex, &self.fragment)),
            parses_what_loads(graphics_loadable(self.vertex, self.fragment, load), parse),
        ensures
            delivered(graphics_loadable(self.vertex, self.fragment, load), parse, out),
    {
        let ghost loadable = graphics_loadable(self.vertex, self.fragment, load);
        let loaded = load(&self.vertex, &self.fragment);
        assert(loadable(loaded));
        let out = reflect(loaded, parse);
        proof {
            reflected_is_delivered(loadable, loaded, parse, out);
        }
        out
    }
}

impl ComputeLoader {
    /// Makes the strategy for the path and runs the initial reload, whose
    /// result is handed back beside it.
    pub fn create<S, N, E, L, P>(compute: String, load: L, parse: P) -> (made: (
        Self,
        Reloaded<S, N, E>,
    )) where
        L: FnOnce(&String) -> Result<S, WatchError<E>>,
        P: FnOnce(&S) -> Result<N, WatchError<E>>,

        requires
            call_requires(load, (&compute,)),
            parses_what_loads(compute_loadable(compute, load), parse),
        ensures
            made.0.compute == compute,
            delivered(compute_loadable(compute, load), parse, made.1),
    {
        let loader = ComputeLoader { compute };
        let first = loader.reload(load, parse);
        (loader, first)
    }

    /// One reload: `load` is called once, with the path of this strategy; on
    /// success `parse` is called once, with the artifact. Nothing is retried.
    pub fn reload<S, N, E, L, P>(&self, load: L, parse: P) -> (out: Reloaded<S, N, E>) where
        L: FnOnce(&String) -> Result<S, WatchError<E>>,
        P: FnOnce(&S) -> Result<N, WatchError<E>>,

        requires
            call_requires(load, (&self.compute,)),
            parses_what_loads(compute_loadable(self.compute, load), parse),
        ensures
            delivered(compute_loadable(self.compute, load), parse, out),
    {
        let ghost loadable = compute_loadable(self.compute, load);
        let loaded = load(&self.compute);
        assert(loadable(loaded));
        let out = reflect(loaded, parse);
        proof {
            reflected_is_delivered(loadable, loaded, parse, out);
        }
        out
    }
}

impl Loader {
    /// The strategy that serves `target`.
    pub open spec fn serving(target: SrcPath) -> Loader {
        match target {
            SrcPath::Graphics(vertex, fragment) => Loader::Graphics(GraphicsLoader { vertex, fragment }),
            SrcPath::Compute(compute) => Loader::Compute(ComputeLoader { compute }),
        }
    }

    /// Whether the steps that this strategy uses may be called as a reload
    /// calls them.
    pub open spec fn can_reload<S, N, E, GL, GP, CL, CP>(self, compiler: Compiler<GL, GP, CL, CP>) -> bool where
        GL: FnOnce(&String, &String) -> Result<S, WatchError<E>>,
        GP: FnOnce(&S) -> Result<N, WatchError<E>>,
        CL: FnOnce(&String) -> Result<S, WatchError<E>>,
        CP: FnOnce(&S) -> Result<N, WatchError<E>>,
     {
        match self {
            Loader::Graphics(g) => {
                &&& call_requires(compiler.load, (&g.vertex, &g.fragment))
                &&& parses_what_loads(graphics_loadable(g.vertex, g.fragment, compiler.load), compiler.parse)
            },
            Loader::Compute(c) => {
                &&& call_requires(compiler.load_compute, (&c.compute,))
                &&& parses_what_loads(compute_loadable(c.compute, compiler.load_compute), compiler.parse_compute)
            },
        }
    }

    /// `out` is a result that one reload by this strategy can deliver: a
    /// graphics strategy goes by `load` and `parse`, a compute strategy by
    /// `load_compute` and `parse_compute`.
    pub open spec fn reloaded<S, N, E, GL, GP, CL, CP>(
        self,
        compiler: Compiler<GL, GP, CL, CP>,
        out: Reloaded<S, N, E>,
    ) -> bool where
        GL: FnOnce(&String, &String) -> Result<S, WatchError<E>>,
        GP: FnOnce(&S) -> Result<N, WatchError<E>>,
        CL: FnOnce(&String) -> Result<S, WatchError<E>>,
        CP: FnOnce(&S) -> Result<N, WatchError<E>>,
     {
        match self {
            Loader::Graphics(g) => delivered(
                graphics_loadable(g.vertex, g.fragment, compiler.load),
                compiler.parse,
                out,
            ),
            Loader::Compute(c) => delivered(
                compute_loadable(c.compute, compiler.load_compute),
                compiler.parse_compute,
                out,
            ),
        }
    }

    /// Makes the strategy that serves `target` and runs the initial reload,
    /// whose result is handed back beside it.
    pub fn create<S, N, E, GL, GP, CL, CP>(target: SrcPath, compiler: Compiler<GL, GP, CL, CP>) -> (made: (
        Self,
        Reloaded<S, N, E>,
    )) where
        GL: FnOnce(&String, &String) -> Result<S, WatchError<E>>,
        GP: FnOnce(&S) -> Result<N, WatchError<E>>,
        CL: FnOnce(&String) -> Result<S, WatchError<E>>,
        CP: FnOnce(&S) -> Result<N, WatchError<E>>,

        requires
            Loader::serving(target).can_reload(compiler),
        ensures
            made.0 == Loader::serving(target),
            made.0.reloaded(compiler, made.1),
    {
        match target {
            SrcPath::Graphics(vertex, fragment) => {
                let (loader, first) = GraphicsLoader::create(vertex, fragment, compiler.load, compiler.parse);
                (Loader::Graphics(loader), first)
            },
            SrcPath::Compute(compute) => {
                let (loader, first) = ComputeLoader::create(
                    compute,
                    compiler.load_compute,
                    compiler.parse_compute,
                );
                (Loader::Compute(loader), first)
            },
        }
    }

    /// One reload by the strategy that this is.
    pub fn reload<S, N, E, GL, GP, CL, CP>(&self, compiler: Compiler<GL, GP, CL, CP>) -> (out: Reloaded<
        S,
        N,
        E,
    >) where
        GL: FnOnce(&String, &String) -> Result<S, WatchError<E>>,
        GP: FnOnce(&S) -> Result<N, WatchError<E>>,
        CL: FnOnce(&String) -> Result<S, WatchError<E>>,
        CP: FnOnce(&S) -> Result<N, WatchError<E>>,

        requires
            self.can_reload(compiler),
        ensures
            self.reloaded(compiler, out),
    {
        match self {
            Loader::Graphics(graphics) => graphics.reload(compiler.load, compiler.parse),
            Loader::Compute(compute) => compute.reload(compiler.load_compute, compiler.parse_compute),
        }
    }
}

/// Where the compile step can only fail, the reload delivers one of its
/// errors: a failed compile never yields a message.
pub proof fn load_failure_is_delivered<S, N, E, P: FnOnce(&S) -> Result<N, WatchError<E>>>(
    loadable: spec_fn(Result<S, WatchError<E>>) -> bool,
    parse: P,
    out: Reloaded<S, N, E>,
)
    requires
        delivered(loadable, parse, out),
        forall|loaded: Result<S, WatchError<E>>| #[trigger] loadable(loaded) ==> loaded is Err,
    ensures
        out matches Err(e) && loadable(Err(e)),
{
}

/// Where reflection fails on whatever the compile step returns, the reload
/// delivers an error and the artifact goes with nobody.
pub proof fn parse_failure_drops_artifact<S, N, E, P: FnOnce(&S) -> Result<N, WatchError<E>>>(
    loadable: spec_fn(Result<S, WatchError<E>>) -> bool,
    parse: P,
    out: Reloaded<S, N, E>,
)
    requires
        delivered(loadable, parse, out),
        forall|shaders: S, parsed: Result<N, WatchError<E>>|
            loadable(Ok(shaders)) && #[trigger] call_ensures(parse, (&shaders,), parsed) ==> parsed is Err,
    ensures
        out is Err,
{
}

/// Where the compile step can only return `shaders` and reflecting them can
/// only return `entry`, the reload delivers the message that holds the two.
pub proof fn success_delivers_both<S, N, E, P: FnOnce(&S) -> Result<N, WatchError<E>>>(
    loadable: spec_fn(Result<S, WatchError<E>>) -> bool,
    parse: P,
    out: Reloaded<S, N, E>,
    shaders: S,
    entry: N,
)
    requires
        delivered(loadable, parse, out),
        forall|loaded: Result<S, WatchError<E>>| #[trigger] loadable(loaded) ==> loaded == Ok::<S, WatchError<E>>(shaders),
        forall|parsed: Result<N, WatchError<E>>| #[trigger]
            call_ensures(parse, (&shaders,), parsed) ==> parsed == Ok::<N, WatchError<E>>(entry),
    ensures
        out == Ok::<Message<S, N>, WatchError<E>>(Message { shaders, entry }),
{
}

} // verus!
