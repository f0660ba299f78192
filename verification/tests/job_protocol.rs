use skybox::error::LoadSkyboxError;
use skybox::job::{LoadAction, Skybox, UpdateAction};
use skybox::plan::bake_plan;

#[test]
fn load_spawns_once_and_only_once() {
    let mut skybox = Skybox::new();
    assert!(!skybox.loading());
    assert_eq!(skybox.load(), LoadAction::Spawn);
    assert!(skybox.loading());
    // A second request while the job is in flight is dropped, not queued.
    assert_eq!(skybox.load(), LoadAction::Ignore);
    assert_eq!(skybox.load(), LoadAction::Ignore);
    assert!(skybox.loading());
}

#[test]
fn polling_a_running_job_changes_nothing() {
    let mut skybox = Skybox::new();
    skybox.load();
    let env = skybox.env;
    assert_eq!(skybox.update(None), UpdateAction::Keep);
    assert!(skybox.loading());
    assert_eq!(skybox.env, env);
}

#[test]
fn successful_bake_installs_a_new_binding() {
    let mut skybox = Skybox::new();
    skybox.load();
    let plan = bake_plan(4096, 2048).unwrap();
    assert_eq!(skybox.update(Some(Ok(plan))), UpdateAction::Install);
    assert!(!skybox.loading());
    assert_eq!(skybox.env.raw, plan.raw);
    assert_eq!(skybox.env.irradiance, plan.irradiance);
    assert_eq!(skybox.env.specular, plan.specular);
    assert_eq!(skybox.env.generation, 1);
    // The job is idle again: a new load may start.
    assert_eq!(skybox.load(), LoadAction::Spawn);
}

#[test]
fn failed_bake_keeps_the_active_environment() {
    let mut skybox = Skybox::new();
    skybox.load();
    let plan = bake_plan(4096, 2048).unwrap();
    skybox.update(Some(Ok(plan)));
    let env = skybox.env;
    skybox.load();
    assert_eq!(
        skybox.update(Some(Err(LoadSkyboxError::WrongAspectRatio))),
        UpdateAction::Keep
    );
    assert!(!skybox.loading());
    assert_eq!(skybox.env, env, "a failed bake must not disturb the environment");
    skybox.load();
    assert_eq!(
        skybox.update(Some(Err(LoadSkyboxError::DecodeError))),
        UpdateAction::Keep
    );
    assert_eq!(skybox.env, env);
}

#[test]
fn generations_count_successful_bakes() {
    let mut skybox = Skybox::new();
    assert_eq!(skybox.env.generation, 0);
    let plan = bake_plan(64, 32).unwrap();
    for expected in 1..=3u64 {
        skybox.load();
        skybox.update(Some(Ok(plan)));
        assert_eq!(skybox.env.generation, expected);
    }
}
