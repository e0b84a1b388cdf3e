use kube_workspace_operator::tasks::{
    build_all_docker_images, build_docker_image_cli, build_docker_image_operator, ci, ci_cli,
    ci_rust, cmd_docker_build, image_tag, kind_install, lint, loaded_image_name,
    publish_docker_images, reported_failure, test_rust, WorkDir,
};

fn args(v: &[String]) -> Vec<&str> {
    v.iter().map(|s| s.as_str()).collect()
}

#[test]
fn rust_tests_run_cargo_test() {
    let j = test_rust();
    let step = &j.stages[0].steps[0];
    assert_eq!(step.program, "cargo");
    assert_eq!(args(&step.args), vec!["test", "--all-features"]);
    assert_eq!(step.dir, WorkDir::Root);
    assert_eq!(kube_workspace_operator::tasks::test().stages[0].steps[0].program, "cargo");
}

#[test]
fn ci_plans() {
    let r = ci_rust();
    assert_eq!(r.jobs.len(), 2);
    let lint = &r.jobs[1];
    assert_eq!(args(&lint.stages[0].steps[0].args), vec!["clippy", "--", "-D", "warnings"]);
    assert_eq!(args(&lint.stages[0].steps[1].args), vec!["fmt", "--check"]);
    assert_eq!(lint.stages[1].steps[0].dir, WorkDir::Xtask);
    assert!(lint.stages[0].keep_going);
    let c = ci_cli();
    let programs: Vec<&str> = c.jobs[0].stages[0].steps.iter().map(|s| s.program.as_str()).collect();
    assert_eq!(programs, vec!["mypy", "pylint", "black"]);
    assert!(!c.jobs[0].stages[0].keep_going);
    assert_eq!(ci().jobs.len(), 3);
}

#[test]
fn image_builds() {
    let op = build_docker_image_operator();
    assert_eq!(args(&op.steps[0].args), vec!["build", ".#docker-image-operator"]);
    assert_eq!(args(&op.steps[1].args), vec!["load", "--input", "./result"]);
    assert!(op.steps[1].capture_stdout);
    let cli = build_docker_image_cli();
    assert_eq!(args(&cli.steps[0].args), vec!["build", ".#docker-image-cli"]);
    assert_eq!(build_all_docker_images().stages.len(), 2);
    assert_eq!(args(&cmd_docker_build().stages[1].steps[0].args), vec!["build", ".#docker-image-cli"]);
}

#[test]
fn image_name_from_docker_load() {
    assert_eq!(loaded_image_name("Loaded image: kube-workspace-operator:abc123\n"), Some("kube-workspace-operator:abc123".to_string()));
    assert_eq!(
        loaded_image_name("Getting image source signatures\n  Loaded image:   cli:v1  \nLoaded image: other:2\n"),
        Some("cli:v1".to_string())
    );
    assert_eq!(loaded_image_name("nothing here\n"), None);
    assert_eq!(loaded_image_name(""), None);
}

#[test]
fn image_tags_and_kind_install() {
    assert_eq!(image_tag("operator:abc"), Some("abc".to_string()));
    assert_eq!(image_tag("registry:5000/operator:abc"), Some("5000/operator".to_string()));
    assert_eq!(image_tag("operator"), None);
    assert!(kind_install("operator").is_none());
    let st = kind_install("operator:abc").unwrap();
    assert_eq!(st.steps[0].program, "kind");
    assert_eq!(args(&st.steps[0].args), vec!["load", "docker-image", "operator:abc"]);
    assert_eq!(st.steps[1].args.last().unwrap(), "image.tag=abc");
    assert_eq!(st.steps[2].program, "kubectl");
}

#[test]
fn format_lint_and_publish() {
    let f = kube_workspace_operator::tasks::format();
    let programs: Vec<&str> = f.stages[0].steps.iter().map(|s| s.program.as_str()).collect();
    assert_eq!(programs, vec!["cargo", "cargo", "black", "nixpkgs-fmt"]);
    assert_eq!(f.stages[0].steps[1].dir, WorkDir::Xtask);
    let l = lint();
    assert_eq!(l.jobs.len(), 3);
    assert_eq!(args(&l.jobs[2].stages[0].steps[0].args), vec!["lint", "deploy/helm", "--strict"]);
    let p = publish_docker_images("op:1", "cli:1");
    assert_eq!(args(&p.steps[0].args), vec!["push", "op:1"]);
    assert_eq!(args(&p.steps[1].args), vec!["push", "cli:1"]);
}

#[test]
fn failure_reporting_follows_the_plan() {
    let r = ci_rust();
    assert_eq!(reported_failure(&r, &vec![true, true]), Some(1));
    assert_eq!(reported_failure(&r, &vec![true, false]), Some(0));
    assert_eq!(reported_failure(&r, &vec![false, false]), None);
    let all = ci();
    assert_eq!(reported_failure(&all, &vec![true, true, true]), Some(2));
    let l = lint();
    assert_eq!(reported_failure(&l, &vec![false, true, true]), Some(1));
}
