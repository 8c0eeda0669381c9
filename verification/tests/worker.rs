use capture_pipeline::worker::backend_dir;
use capture_pipeline::worker::default_interpreter;
use capture_pipeline::worker::plan_spawn;
use capture_pipeline::worker::venv_interpreter_path;
use capture_pipeline::worker::worker_entry_point;
use capture_pipeline::worker::WorkerSupervisor;

#[test]
fn venv_path_is_joined_onto_parent() {
    let path = venv_interpreter_path("/home/someone/project");
    assert_eq!(path, "/home/someone/project/.venv/bin/python3");
}

#[test]
fn spawn_plan_prefers_existing_venv() {
    let venv = venv_interpreter_path("/srv/app");
    let plan = plan_spawn(venv.clone(), true, true);
    assert_eq!(plan.program, venv);
    assert_eq!(plan.entry_arg, "main.py");
    assert!(plan.use_backend_dir);
}

#[test]
fn spawn_plan_falls_back_to_search_path() {
    let venv = venv_interpreter_path("/srv/app");
    let plan = plan_spawn(venv, false, false);
    assert_eq!(plan.program, "python3");
    assert_eq!(plan.entry_arg, "main.py");
    assert!(!plan.use_backend_dir);
}

#[test]
fn fixed_names_match_the_worker_layout() {
    assert_eq!(default_interpreter(), "python3");
    assert_eq!(worker_entry_point(), "main.py");
    assert_eq!(backend_dir(), "../backend");
}

#[test]
fn replacement_surfaces_prior_worker_first() {
    let mut sup = WorkerSupervisor::new();
    assert!(sup.begin_spawn().is_none());
    sup.record_spawn(11);
    assert_eq!(sup.worker, Some(11));
    let prior = sup.begin_spawn();
    assert_eq!(prior, Some(11));
    assert!(sup.worker.is_none());
    sup.record_spawn(22);
    assert_eq!(sup.worker, Some(22));
}

#[test]
fn stop_sidecar_is_idempotent() {
    let mut sup = WorkerSupervisor::new();
    assert!(sup.stop_sidecar().is_none());
    sup.record_spawn(7);
    assert_eq!(sup.stop_sidecar(), Some(7));
    assert!(sup.stop_sidecar().is_none());
}
