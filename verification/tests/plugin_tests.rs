use wolf_engine::{
    DefaultEngineCore, EngineBuilder, FixedUpdateScheduler, FixedUpdateSchedulerBuilder, Plugin,
    PluginLoader, PluginResult,
};

type TestBuilder = EngineBuilder<FixedUpdateScheduler, DefaultEngineCore>;
type TestResult = PluginResult<FixedUpdateScheduler, DefaultEngineCore>;

struct NoopPlugin;

impl Plugin<FixedUpdateScheduler, DefaultEngineCore> for NoopPlugin {
    // The compiled form of the trait's specification member; never called at
    // run time.
    fn setup_spec(_pre: Self, _post: Self, _engine_builder: TestBuilder, _result: TestResult) -> bool {
        true
    }

    fn name(&self) -> String {
        "Noop Plugin".to_string()
    }

    fn setup(&mut self, engine_builder: TestBuilder) -> TestResult {
        Ok(engine_builder)
    }
}

#[test]
fn should_store_added_plugins() {
    let plugin = NoopPlugin;
    let mut plugin_loader = PluginLoader::new();

    plugin_loader.add(plugin);

    assert_eq!(
        plugin_loader.len(),
        1,
        "The plugin was not added to the PluginLoader"
    );
}

#[test]
fn should_load_plugins_on_load_all_call() {
    let mut plugin_loader = PluginLoader::new();
    plugin_loader.add(NoopPlugin);
    plugin_loader.add(NoopPlugin);

    let (_engine_builder, diagnostics) = plugin_loader.load_all(EngineBuilder::new());

    assert!(diagnostics.is_empty(), "No plugin should have failed");
}

#[test]
fn should_create_empty_plugin_loader() {
    let plugin_loader = PluginLoader::<NoopPlugin>::new();
    assert!(
        plugin_loader.is_empty(),
        "The plugin loader must start empty"
    );
}

enum TestPlugin {
    Failing,
    SlowTps,
}

impl Plugin<FixedUpdateScheduler, DefaultEngineCore> for TestPlugin {
    // The compiled form of the trait's specification member; never called at
    // run time.
    fn setup_spec(_pre: Self, _post: Self, _engine_builder: TestBuilder, _result: TestResult) -> bool {
        true
    }

    fn name(&self) -> String {
        match self {
            TestPlugin::Failing => "Failing Plugin".to_string(),
            TestPlugin::SlowTps => "Slow Tps Plugin".to_string(),
        }
    }

    fn setup(&mut self, engine_builder: TestBuilder) -> TestResult {
        match self {
            TestPlugin::Failing => Err(("the plugin failed".to_string(), engine_builder)),
            TestPlugin::SlowTps => {
                let scheduler = FixedUpdateSchedulerBuilder::new().with_tps(30).build();
                Ok(engine_builder.with_scheduler(scheduler))
            }
        }
    }
}

#[test]
fn failing_plugin_does_not_abort_the_remaining_plugins() {
    let mut plugin_loader = PluginLoader::new();
    plugin_loader.add(TestPlugin::Failing);
    plugin_loader.add(TestPlugin::SlowTps);

    let (engine_builder, diagnostics) = plugin_loader.load_all(EngineBuilder::new());

    assert_eq!(
        engine_builder.scheduler().tps(),
        30,
        "The plugin after the failing one was not loaded"
    );
    assert_eq!(diagnostics.len(), 1, "The failure was not recorded");
    assert_eq!(diagnostics[0].0, "Failing Plugin");
    assert_eq!(diagnostics[0].1, "the plugin failed");
}

#[test]
fn successful_mutations_survive_a_later_failing_plugin() {
    let mut plugin_loader = PluginLoader::new();
    plugin_loader.add(TestPlugin::SlowTps);
    plugin_loader.add(TestPlugin::Failing);

    let (engine_builder, diagnostics) = plugin_loader.load_all(EngineBuilder::new());

    assert_eq!(
        engine_builder.scheduler().tps(),
        30,
        "The earlier plugin's mutation was lost"
    );
    assert_eq!(diagnostics.len(), 1, "The failure was not recorded");
    assert_eq!(diagnostics[0].0, "Failing Plugin");
}
