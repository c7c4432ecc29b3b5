use onnxruntime::environment::{BuildStep, EnvBuilder, Environment, EnvironmentManager, Release};
use onnxruntime::error::{OrtApiError, OrtError};
use onnxruntime::lifecycle::Phase;
use onnxruntime::LoggingLevel;

const NATIVE_ENV: usize = 0x7f00_0000_1000;

/// Runs a build request to its end against an engine that creates its
/// environment at `NATIVE_ENV`. Returns the handle and whether the engine was
/// asked to create.
fn build(manager: &mut EnvironmentManager, builder: EnvBuilder) -> (Environment, bool) {
    match builder.build(manager) {
        BuildStep::Create { .. } => {
            let env = manager.finish_creation(Ok(()), NATIVE_ENV).unwrap();
            (env, true)
        }
        BuildStep::Shared(env) => (env, false),
        BuildStep::Busy => panic!("no creation is under way"),
    }
}

#[test]
fn sequential_environment_creation() {
    let mut manager = EnvironmentManager::new();
    let name: String = "sequential_environment_creation".into();

    let (env, _) = build(
        &mut manager,
        Environment::builder()
            .with_name(&name)
            .with_log_level(LoggingLevel::Warning),
    );

    let mut prev_env_ptr = env.env_ptr();

    for i in 0..10 {
        let name = format!("sequential_environment_creation: {}", i);
        let (env, _) = build(
            &mut manager,
            Environment::builder()
                .with_name(&name)
                .with_log_level(LoggingLevel::Warning),
        );
        let next_env_ptr = env.env_ptr();
        assert_eq!(next_env_ptr, prev_env_ptr);
        prev_env_ptr = next_env_ptr;
    }
}

#[test]
fn concurrent_environment_creations() {
    let mut manager = EnvironmentManager::new();
    let initial_name = "concurrent_environment_creation";
    let (main_env, created) = build(
        &mut manager,
        Environment::builder()
            .with_name(initial_name)
            .with_log_level(LoggingLevel::Warning),
    );
    assert!(created);
    let main_env_ptr = main_env.env_ptr();

    let children: Vec<Environment> = (0..10)
        .map(|t| {
            let name = format!("concurrent_environment_creation: {}", t);
            let (env, created) = build(
                &mut manager,
                Environment::builder()
                    .with_name(&name)
                    .with_log_level(LoggingLevel::Warning),
            );
            assert!(!created);
            assert_eq!(env.env_ptr(), main_env_ptr);
            env
        })
        .collect();

    assert_eq!(main_env.name(), initial_name);
    assert_eq!(main_env.env_ptr(), main_env_ptr);
    assert!(children.iter().all(|env| env.name() == initial_name));
    assert_eq!(manager.handle_count(), 11);
}

#[test]
fn ten_racers_observe_the_environment_named_t() {
    let mut manager = EnvironmentManager::new();
    let (first, _) = build(&mut manager, Environment::builder().with_name("t"));
    let levels = [
        LoggingLevel::Verbose,
        LoggingLevel::Info,
        LoggingLevel::Warning,
        LoggingLevel::Error,
        LoggingLevel::Fatal,
    ];
    for racer in 0..10 {
        let name = format!("racer {}", racer);
        let builder = Environment::builder()
            .with_name(&name)
            .with_log_level(levels[racer % levels.len()]);
        match builder.build(&mut manager) {
            BuildStep::Shared(env) => {
                assert_eq!(env.env_ptr(), first.env_ptr());
                assert_eq!(env.env_ptr(), NATIVE_ENV);
                assert_eq!(env.name(), "t");
            }
            other => panic!("expected a shared handle, got {:?}", other),
        }
    }
}

#[test]
fn builder_starts_with_default_name_and_warning_level() {
    let mut manager = EnvironmentManager::new();
    match Environment::builder().build(&mut manager) {
        BuildStep::Create { name, log_level } => {
            assert_eq!(name, "default");
            assert_eq!(log_level, LoggingLevel::Warning);
        }
        other => panic!("expected a creation, got {:?}", other),
    }
}

#[test]
fn last_configuration_of_a_builder_counts() {
    let mut manager = EnvironmentManager::new();
    let builder = Environment::builder()
        .with_name("first")
        .with_log_level(LoggingLevel::Error)
        .with_name("second")
        .with_log_level(LoggingLevel::Verbose);
    match builder.build(&mut manager) {
        BuildStep::Create { name, log_level } => {
            assert_eq!(name, "second");
            assert_eq!(log_level, LoggingLevel::Verbose);
        }
        other => panic!("expected a creation, got {:?}", other),
    }
    let env = manager.finish_creation(Ok(()), NATIVE_ENV).unwrap();
    assert_eq!(env.name(), "second");
    assert_eq!(env.env_ptr(), NATIVE_ENV);
}

#[test]
fn new_manager_is_uninitialized() {
    let manager = EnvironmentManager::new();
    assert_eq!(manager.phase(), Phase::Uninitialized);
    assert_eq!(manager.handle_count(), 0);
}

#[test]
fn phases_follow_the_life_of_the_environment() {
    let mut manager = EnvironmentManager::new();
    let step = Environment::builder().with_name("life").build(&mut manager);
    assert!(matches!(step, BuildStep::Create { .. }));
    assert_eq!(manager.phase(), Phase::Creating);
    assert_eq!(manager.handle_count(), 0);

    let env = manager.finish_creation(Ok(()), NATIVE_ENV).unwrap();
    assert_eq!(manager.phase(), Phase::Ready);
    assert_eq!(manager.handle_count(), 1);

    assert_eq!(
        manager.release(env),
        Release::Last {
            env_ptr: NATIVE_ENV
        }
    );
    assert_eq!(manager.phase(), Phase::Released);
    assert_eq!(manager.handle_count(), 0);
}

#[test]
fn requests_wait_while_the_environment_is_created() {
    let mut manager = EnvironmentManager::new();
    let step = Environment::builder().with_name("creator").build(&mut manager);
    assert!(matches!(step, BuildStep::Create { .. }));

    for racer in 0..3 {
        let name = format!("racer {}", racer);
        let step = Environment::builder().with_name(&name).build(&mut manager);
        assert!(matches!(step, BuildStep::Busy));
        assert_eq!(manager.phase(), Phase::Creating);
    }

    let env = manager.finish_creation(Ok(()), NATIVE_ENV).unwrap();
    assert_eq!(env.name(), "creator");

    let (racer_env, created) = build(&mut manager, Environment::builder().with_name("racer"));
    assert!(!created);
    assert_eq!(racer_env.name(), "creator");
    assert_eq!(racer_env.env_ptr(), NATIVE_ENV);
}

#[test]
fn failed_creation_is_reported_and_can_be_tried_again() {
    let mut manager = EnvironmentManager::new();
    let step = Environment::builder().with_name("unlucky").build(&mut manager);
    assert!(matches!(step, BuildStep::Create { .. }));

    let failure = OrtApiError {
        message: String::from("out of memory"),
    };
    let result = manager.finish_creation(Err(failure), 0);
    match result {
        Err(error) => assert_eq!(
            error,
            OrtError::Environment(OrtApiError {
                message: String::from("out of memory")
            })
        ),
        Ok(env) => panic!("expected a failure, got {:?}", env),
    }
    assert_eq!(manager.phase(), Phase::Uninitialized);
    assert_eq!(manager.handle_count(), 0);

    let (env, created) = build(&mut manager, Environment::builder().with_name("lucky"));
    assert!(created);
    assert_eq!(env.name(), "lucky");
}

#[test]
fn only_the_last_of_n_handles_releases_the_environment() {
    let mut manager = EnvironmentManager::new();
    let mut handles = Vec::new();
    for i in 0..7 {
        let name = format!("holder {}", i);
        let (env, _) = build(&mut manager, Environment::builder().with_name(&name));
        handles.push(env);
    }
    assert_eq!(manager.handle_count(), 7);

    let mut native_releases = Vec::new();
    let mut remaining = 7;
    for env in handles {
        remaining -= 1;
        match manager.release(env) {
            Release::Retained => {
                assert!(remaining > 0);
                assert_eq!(manager.handle_count(), remaining);
                assert_eq!(manager.phase(), Phase::Ready);
            }
            Release::Last { env_ptr } => {
                assert_eq!(remaining, 0);
                native_releases.push(env_ptr);
            }
            Release::Foreign => panic!("the handle belongs to the manager"),
        }
    }
    assert_eq!(native_releases, vec![NATIVE_ENV]);
    assert_eq!(manager.phase(), Phase::Released);
}

#[test]
fn handle_of_another_environment_is_foreign() {
    let mut ours = EnvironmentManager::new();
    let (env, _) = build(&mut ours, Environment::builder().with_name("ours"));

    let mut theirs = EnvironmentManager::new();
    let step = Environment::builder().with_name("theirs").build(&mut theirs);
    assert!(matches!(step, BuildStep::Create { .. }));
    let stranger = theirs.finish_creation(Ok(()), NATIVE_ENV + 64).unwrap();

    assert_eq!(ours.release(stranger), Release::Foreign);
    assert_eq!(ours.phase(), Phase::Ready);
    assert_eq!(ours.handle_count(), 1);

    assert_eq!(
        ours.release(env),
        Release::Last {
            env_ptr: NATIVE_ENV
        }
    );
}

#[test]
fn nothing_is_released_twice() {
    let mut manager = EnvironmentManager::new();
    let (first, _) = build(&mut manager, Environment::builder());
    let (second, _) = build(&mut manager, Environment::builder());
    assert_eq!(manager.release(first), Release::Retained);
    assert_eq!(
        manager.release(second),
        Release::Last {
            env_ptr: NATIVE_ENV
        }
    );

    let mut other = EnvironmentManager::new();
    let (late, _) = build(&mut other, Environment::builder());
    assert_eq!(late.env_ptr(), NATIVE_ENV);
    assert_eq!(manager.release(late), Release::Foreign);
    assert_eq!(manager.phase(), Phase::Released);
}

#[test]
fn environment_is_created_anew_after_its_release() {
    let mut manager = EnvironmentManager::new();
    let (env, _) = build(&mut manager, Environment::builder().with_name("one"));
    assert_eq!(
        manager.release(env),
        Release::Last {
            env_ptr: NATIVE_ENV
        }
    );

    let step = Environment::builder()
        .with_name("two")
        .with_log_level(LoggingLevel::Fatal)
        .build(&mut manager);
    match step {
        BuildStep::Create { name, log_level } => {
            assert_eq!(name, "two");
            assert_eq!(log_level, LoggingLevel::Fatal);
        }
        other => panic!("expected a creation, got {:?}", other),
    }
    let env = manager.finish_creation(Ok(()), NATIVE_ENV + 4096).unwrap();
    assert_eq!(env.name(), "two");
    assert_eq!(env.env_ptr(), NATIVE_ENV + 4096);
    assert_eq!(manager.handle_count(), 1);
}
