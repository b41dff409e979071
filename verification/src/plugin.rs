//! Plugins: ordered, independently failable setup routines that each mutate
//! the engine builder once, at startup.
//!
//! [`PluginLoader::load_all`] threads the builder through every plugin in
//! insertion order and hands back the failures' diagnostics; the spec
//! functions `plugin_step` and `plugins_loaded` state that law exactly.

use vstd::prelude::*;
use crate::engine::EngineBuilder;

verus! {

/// What a plugin's setup hands back: the mutated builder, or an error message
/// together with the builder it was given, so that either outcome leaves a
/// valid builder.
pub type PluginResult<Sch, Core> = Result<
    EngineBuilder<Sch, Core>,
    (String, EngineBuilder<Sch, Core>),
>;

/// One setup routine run while the engine is built.
pub trait Plugin<Sch, Core>: Sized {
    /// The setup protocol of this plugin: `setup_spec(pre, post, builder,
    /// result)` holds exactly when running the setup of a plugin in state
    /// `pre` on `builder` may leave the plugin in state `post` and return
    /// `result`.
    spec fn setup_spec(
        pre: Self,
        post: Self,
        engine_builder: EngineBuilder<Sch, Core>,
        result: PluginResult<Sch, Core>,
    ) -> bool;

    /// The plugin's name, for diagnostics.
    fn name(&self) -> (name: String);

    /// Consumes the builder, applies this plugin's setup to it, and returns
    /// it — mutated on success, or alongside an error message on failure.
    fn setup(&mut self, engine_builder: EngineBuilder<Sch, Core>) -> (result: PluginResult<
        Sch,
        Core,
    >)
        ensures
            Self::setup_spec(*old(self), *final(self), engine_builder, result),
    ;
}

/// One plugin's load step: running the setup of `pre` on `builder_in` left
/// the plugin as `post` and carried `builder_out` forward — the mutated
/// builder of a successful setup, or the builder handed back beside the
/// failure, whose message is the step's `diagnostic`. Either way the builder
/// is never lost.
pub open spec fn plugin_step<Sch, Core, P: Plugin<Sch, Core>>(
    pre: P,
    post: P,
    builder_in: EngineBuilder<Sch, Core>,
    builder_out: EngineBuilder<Sch, Core>,
    diagnostic: Option<Seq<char>>,
) -> bool {
    exists|result: PluginResult<Sch, Core>|
        {
            &&& #[trigger] P::setup_spec(pre, post, builder_in, result)
            &&& match result {
                Result::Ok(mutated) => builder_out == mutated && diagnostic is None,
                Result::Err((message, preserved)) => builder_out == preserved && diagnostic
                    == Option::Some(message@),
            }
        }
}

/// The loading law: the builder is threaded through the setup of every plugin
/// of `plugins` in order — each plugin receives exactly the builder the one
/// before it handed back, so no failure aborts the plugins after it and no
/// earlier mutation is lost — and `diagnostics` holds one entry per failure,
/// in order, carrying the failure's message.
pub open spec fn plugins_loaded<Sch, Core, P: Plugin<Sch, Core>>(
    plugins: Seq<P>,
    builder_in: EngineBuilder<Sch, Core>,
    builder_out: EngineBuilder<Sch, Core>,
    diagnostics: Seq<(String, String)>,
) -> bool
    decreases plugins.len(),
{
    if plugins.len() == 0 {
        builder_out == builder_in && diagnostics == Seq::<(String, String)>::empty()
    } else {
        exists|post: P, mid: EngineBuilder<Sch, Core>, diagnostic: Option<Seq<char>>|
            {
                &&& #[trigger] plugin_step(plugins.last(), post, mid, builder_out, diagnostic)
                &&& match diagnostic {
                    Option::None => plugins_loaded(plugins.drop_last(), builder_in, mid, diagnostics),
                    Option::Some(message) => {
                        &&& diagnostics.len() > 0
                        &&& diagnostics.last().1@ == message
                        &&& plugins_loaded(
                            plugins.drop_last(),
                            builder_in,
                            mid,
                            diagnostics.drop_last(),
                        )
                    },
                }
            }
    }
}

/// An ordered collection of plugins, loaded in insertion order by
/// [`PluginLoader::load_all`].
pub struct PluginLoader<P> {
    plugins: Vec<P>,
}

impl<P> View for PluginLoader<P> {
    type V = Seq<P>;

    closed spec fn view(&self) -> Seq<P> {
        self.plugins@
    }
}

impl<P> PluginLoader<P> {
    /// Creates an empty plugin loader.
    pub fn new() -> (loader: Self)
        ensures
            loader@ == Seq::<P>::empty(),
    {
        Self { plugins: Vec::new() }
    }

    /// Adds `plugin` to the queue, after every plugin already added.
    pub fn add(&mut self, plugin: P)
        ensures
            final(self)@ == old(self)@.push(plugin),
    {
        self.plugins.push(plugin);
    }

    /// Returns the number of plugins queued to be loaded.
    pub fn len(&self) -> (length: usize)
        ensures
            length == self@.len(),
    {
        self.plugins.len()
    }

    /// Returns true if no plugin has been added to the loader.
    pub fn is_empty(&self) -> (empty: bool)
        ensures
            empty == (self@.len() == 0),
    {
        self.plugins.is_empty()
    }

    /// Consumes the loader and runs every plugin's setup on the builder, in
    /// the order the plugins were added, threading the builder through every
    /// outcome.
    ///
    /// A failing plugin is skipped over: loading continues with the builder
    /// it handed back, so no later plugin is aborted and no earlier plugin's
    /// mutation is lost. Each failure is recorded as a diagnostic — the name
    /// the plugin reported, with the failure's message — and the diagnostics
    /// come back beside the builder, in failure order, for the caller to log.
    pub fn load_all<Sch, Core>(self, engine_builder: EngineBuilder<Sch, Core>) -> (result: (
        EngineBuilder<Sch, Core>,
        Vec<(String, String)>,
    )) where P: Plugin<Sch, Core>
        ensures
            plugins_loaded(self@, engine_builder, result.0, result.1@),
    {
        let ghost plugins0 = self@;
        let ghost builder0 = engine_builder;
        let mut plugins = self.plugins;
        let mut engine_builder = engine_builder;
        let mut diagnostics: Vec<(String, String)> = Vec::new();
        let mut i: usize = 0;
        proof {
            assert(plugins0.take(0) =~= Seq::<P>::empty());
            assert(diagnostics@ =~= Seq::<(String, String)>::empty());
        }
        while i < plugins.len()
            invariant
                i <= plugins@.len(),
                plugins@.len() == plugins0.len(),
                forall|j: int| i <= j < plugins@.len() ==> plugins@[j] == plugins0[j],
                plugins_loaded(plugins0.take(i as int), builder0, engine_builder, diagnostics@),
            decreases plugins@.len() - i,
        {
            let ghost builder_mid = engine_builder;
            let ghost diagnostics_mid = diagnostics@;
            let plugin = &mut plugins[i];
            let name = plugin.name();
            let outcome = plugin.setup(engine_builder);
            let ghost plugin_after = *plugin;
            let ghost outcome_ghost = outcome;
            match outcome {
                Result::Ok(mutated) => {
                    engine_builder = mutated;
                },
                Result::Err((message, preserved)) => {
                    diagnostics.push((name, message));
                    engine_builder = preserved;
                },
            }
            proof {
                let diagnostic = match outcome_ghost {
                    Result::Ok(_) => Option::<Seq<char>>::None,
                    Result::Err((message, _)) => Option::Some(message@),
                };
                assert(P::setup_spec(plugins0[i as int], plugin_after, builder_mid, outcome_ghost));
                assert(plugin_step(
                    plugins0[i as int],
                    plugin_after,
                    builder_mid,
                    engine_builder,
                    diagnostic,
                ));
                let loaded = plugins0.take(i as int + 1);
                assert(loaded.drop_last() =~= plugins0.take(i as int));
                assert(loaded.last() == plugins0[i as int]);
                assert(plugin_step(
                    loaded.last(),
                    plugin_after,
                    builder_mid,
                    engine_builder,
                    diagnostic,
                ));
                if diagnostic is Some {
                    assert(diagnostics@.drop_last() =~= diagnostics_mid);
                }
                assert(plugins_loaded(loaded, builder0, engine_builder, diagnostics@));
            }
            i = i + 1;
        }
        proof {
            assert(plugins0.take(plugins0.len() as int) =~= plugins0);
        }
        (engine_builder, diagnostics)
    }
}

impl<P> Default for PluginLoader<P> {
    /// The default loader is the empty loader.
    fn default() -> (loader: Self)
        ensures
            loader@ == Seq::<P>::empty(),
    {
        Self::new()
    }
}

} // verus!
