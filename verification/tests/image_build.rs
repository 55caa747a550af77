use deploy_tools::docker::{
    AfterBuild, BuildError, DockerConfig, DockerHandler, RolloutError, RolloutNext, RolloutStage,
};

fn config(need_push: &str) -> DockerConfig {
    DockerConfig {
        dir: "/work/site".to_string(),
        dockerfile: "FROM nginx:1.25\nWORKDIR /usr/share/nginx/html".to_string(),
        address: "registry.example.com".to_string(),
        image: "site".to_string(),
        version: "1.0".to_string(),
        namespace: "web".to_string(),
        user: "bot".to_string(),
        password: "SECRET-REDACTED".to_string(),
        need_push: need_push.to_string(),
        nginx_path: "/etc/nginx/nginx.conf".to_string(),
        nginx_content: "events {}".to_string(),
        platform: "linux/amd64".to_string(),
        deploy_dir: "dist".to_string(),
        kubernetes_namespace: "prod".to_string(),
    }
}

#[test]
fn settings_for_a_local_build_need_four_fields() {
    let c = config("No");
    assert!(!DockerConfig::is_empty(&c));
    assert!(DockerConfig::is_empty(&DockerConfig { dir: String::new(), ..c.clone() }));
    assert!(DockerConfig::is_empty(&DockerConfig { dockerfile: String::new(), ..c.clone() }));
    assert!(DockerConfig::is_empty(&DockerConfig { image: String::new(), ..c.clone() }));
    assert!(DockerConfig::is_empty(&DockerConfig { platform: String::new(), ..c.clone() }));
    assert!(!DockerConfig::is_empty(&DockerConfig { address: String::new(), ..c.clone() }));
    assert!(!DockerConfig::is_empty(&DockerConfig { user: String::new(), ..c.clone() }));
    assert!(!DockerConfig::is_empty(&DockerConfig { version: String::new(), ..c.clone() }));
    assert!(DockerConfig::is_empty(&DockerConfig::default()));
}

#[test]
fn settings_for_a_pushed_image_need_the_registry_and_the_cluster() {
    let c = config("Yes");
    assert!(!DockerConfig::is_empty(&c));
    assert!(DockerConfig::is_empty(&DockerConfig { address: String::new(), ..c.clone() }));
    assert!(DockerConfig::is_empty(&DockerConfig { namespace: String::new(), ..c.clone() }));
    assert!(DockerConfig::is_empty(&DockerConfig { user: String::new(), ..c.clone() }));
    assert!(DockerConfig::is_empty(&DockerConfig { password: String::new(), ..c.clone() }));
    assert!(DockerConfig::is_empty(&DockerConfig {
        kubernetes_namespace: String::new(),
        ..c.clone()
    }));
    assert!(!DockerConfig::is_empty(&DockerConfig { version: String::new(), ..c.clone() }));
    assert!(!DockerConfig::is_empty(&DockerConfig { address: String::new(), ..config("yes") }));
}

#[test]
fn pull_commands_come_from_the_from_lines() {
    let mut c = config("Yes");
    c.dockerfile = "# build\nFROM node:20 AS build\n\nRUN npm ci\nFROM   nginx:1.25\nfrom alpine\nFROM \nFROMX y\n COPY . .".to_string();
    assert_eq!(
        DockerHandler::exec_docker_pull_nginx(&c),
        vec!["docker pullnode:20".to_string(), "docker pullnginx:1.25".to_string()]
    );
    c.dockerfile = "RUN true".to_string();
    assert!(DockerHandler::exec_docker_pull_nginx(&c).is_empty());
    c.dockerfile = String::new();
    assert!(DockerHandler::exec_docker_pull_nginx(&c).is_empty());
}

#[test]
fn the_image_name() {
    assert_eq!(DockerHandler::image(&config("Yes")), "registry.example.com/web/site:1.0");
}

#[test]
fn the_dockerfile_gets_nginx_settings_and_the_published_directory() {
    assert_eq!(
        DockerHandler::dockerfile(&config("Yes"), "nginx_20240102.conf"),
        "FROM nginx:1.25\nWORKDIR /usr/share/nginx/html\nADD nginx_20240102.conf /etc/nginx/nginx.conf\nCOPY dist ./\n CMD [\"nginx\", \"-g\", \"daemon off;\"]"
    );
    let mut c = config("Yes");
    c.deploy_dir = String::new();
    assert_eq!(
        DockerHandler::dockerfile(&c, "n.conf"),
        "FROM nginx:1.25\nWORKDIR /usr/share/nginx/html\nADD n.conf /etc/nginx/nginx.conf\n CMD [\"nginx\", \"-g\", \"daemon off;\"]"
    );
    c.nginx_content = String::new();
    c.dockerfile = "FROM nginx\r\nRUN true\n".to_string();
    assert_eq!(
        DockerHandler::dockerfile(&c, "n.conf"),
        "FROM nginx\r\nRUN true\n\n CMD [\"nginx\", \"-g\", \"daemon off;\"]"
    );
}

#[test]
fn the_build_command() {
    assert_eq!(
        DockerHandler::build("buildx", "Dockerfile_1", "site:1.0", "linux/amd64"),
        "docker buildx build --file ./Dockerfile_1 -t site:1.0 --platform linux/amd64 -o type=docker ."
    );
    assert_eq!(
        DockerHandler::build("", "Dockerfile_1", "site:1.0", "linux/amd64"),
        "docker  build --file ./Dockerfile_1 -t site:1.0 --platform linux/amd64 -o type=docker ."
    );
}

#[test]
fn the_commands_of_a_pushed_build() {
    let c = config("Yes");
    let pulls = DockerHandler::exec_docker_pull_nginx(&c);
    assert_eq!(
        DockerHandler::exec(&c, "Server: 24.0", "buildx v0.11", "Dockerfile_1"),
        Ok(DockerHandler::commands(&c, &pulls, true, "Dockerfile_1"))
    );
    assert_eq!(
        DockerHandler::commands(&c, &pulls, true, "Dockerfile_1"),
        vec![
            "cd /work/site".to_string(),
            "docker login registry.example.com --username bot --password SECRET-REDACTED".to_string(),
            "docker pullnginx:1.25".to_string(),
            "docker buildx build --file ./Dockerfile_1 -t registry.example.com/web/site:1.0 --platform linux/amd64 -o type=docker .".to_string(),
            "docker push registry.example.com/web/site:1.0".to_string(),
        ]
    );
}

#[test]
fn the_commands_of_a_local_build() {
    let c = config("No");
    assert_eq!(
        DockerHandler::exec(&c, "Server: 24.0", "", "Dockerfile_1"),
        Ok(vec![
            "cd /work/site".to_string(),
            "docker  build --file ./Dockerfile_1 -t site:1.0 --platform linux/amd64 -o type=docker ."
                .to_string(),
        ])
    );
    assert_eq!(
        DockerHandler::commands(&c, &Vec::new(), false, "Dockerfile_1"),
        DockerHandler::exec(&c, "x", "", "Dockerfile_1").unwrap()
    );
}

#[test]
fn a_build_is_not_planned_without_settings_docker_or_an_image_to_pull() {
    let c = config("Yes");
    let none = DockerConfig { image: String::new(), ..config("Yes") };
    assert_eq!(DockerHandler::exec(&none, "info", "", "D"), Err(BuildError::ConfigIncomplete));
    assert_eq!(DockerHandler::exec(&none, "", "", "D"), Err(BuildError::ConfigIncomplete));
    assert_eq!(DockerHandler::exec(&c, "", "buildx", "D"), Err(BuildError::DockerNotRunning));
    let bare = DockerConfig { dockerfile: "RUN true".to_string(), ..config("Yes") };
    assert_eq!(DockerHandler::exec(&bare, "info", "", "D"), Err(BuildError::NoPullCommand));
    assert_eq!(DockerHandler::exec(&bare, "", "", "D"), Err(BuildError::DockerNotRunning));
    let local = DockerConfig { dockerfile: "RUN true".to_string(), ..config("No") };
    assert!(DockerHandler::exec(&local, "info", "", "D").is_ok());
}

#[test]
fn what_follows_a_build() {
    assert_eq!(DockerHandler::built(&config("Yes"), true), AfterBuild::Rollout);
    assert_eq!(DockerHandler::built(&config("No"), true), AfterBuild::Done);
    assert_eq!(DockerHandler::built(&config("Yes"), false), AfterBuild::Failed);
    assert_eq!(DockerHandler::built(&config("No"), false), AfterBuild::Failed);
}

const SHOW: &str = "echo pw | sudo -S -i bash -c 'kubectl get deploy site -n prod -o yaml'";
const RESTART: &str = "echo pw | sudo -S -i kubectl rollout restart deployment/site -n prod";

fn after(stage: RolloutStage, output: &str) -> RolloutNext {
    let c = config("Yes");
    DockerHandler::update_image(&c, "registry.example.com/web/site:1.0", "pw", Some((stage, output)))
}

#[test]
fn the_commands_that_bring_an_image_into_the_cluster() {
    let c = config("Yes");
    let image = DockerHandler::image(&c);
    assert_eq!(DockerHandler::login("pw"), "echo pw | sudo -S -i");
    assert_eq!(DockerHandler::show(&c, "pw"), SHOW);
    assert_eq!(DockerHandler::restart(&c, "pw"), RESTART);
    assert_eq!(
        DockerHandler::change(&c, &image, "pw"),
        "echo pw | sudo -S -i kubectl patch deployment site -n prod --type=merge --patch '{\"spec\": {\"template\": {\"spec\": {\"containers\": [{\"name\": \"site\",\"image\": \"registry.example.com/web/site:1.0\", \"imagePullPolicy\": \"Always\"}]}}}}'"
    );
}

#[test]
fn a_rollout_that_changes_the_deployment() {
    let c = config("Yes");
    let image = DockerHandler::image(&c);
    assert_eq!(
        DockerHandler::update_image(&c, &image, "pw", None),
        RolloutNext::Run(RolloutStage::Show, SHOW.to_string())
    );
    assert_eq!(
        after(RolloutStage::Show, "apiVersion: apps/v1"),
        RolloutNext::Run(RolloutStage::Patch, DockerHandler::change(&c, &image, "pw"))
    );
    assert_eq!(
        after(RolloutStage::Patch, "deployment.apps/site patched"),
        RolloutNext::Run(RolloutStage::Restart, RESTART.to_string())
    );
    assert_eq!(after(RolloutStage::Restart, "deployment.apps/site restarted"), RolloutNext::Done(true));
    assert_eq!(after(RolloutStage::Restart, ""), RolloutNext::Done(false));
}

#[test]
fn a_rollout_that_changes_nothing_deletes_the_pod_first() {
    let c = config("Yes");
    assert_eq!(
        after(RolloutStage::Patch, "deployment.apps/site patched (no change)"),
        RolloutNext::Run(RolloutStage::ListPods, DockerHandler::pods(&c, "pw"))
    );
    assert_eq!(
        after(RolloutStage::ListPods, "site-7c9f 1/1 Running"),
        RolloutNext::Run(
            RolloutStage::DeletePod,
            "echo pw | sudo -S -i kubectl delete pod -n prod site-7c9f".to_string()
        )
    );
    assert_eq!(
        after(RolloutStage::DeletePod, "pod \"site-7c9f\" deleted\n"),
        RolloutNext::Run(RolloutStage::Restart, RESTART.to_string())
    );
}

#[test]
fn a_rollout_fails_where_the_cluster_does_not_answer_as_it_should() {
    assert_eq!(after(RolloutStage::Show, ""), RolloutNext::Failed(RolloutError::NoYaml));
    assert_eq!(after(RolloutStage::Patch, ""), RolloutNext::Failed(RolloutError::PatchFailed));
    assert_eq!(
        after(RolloutStage::ListPods, ""),
        RolloutNext::Failed(RolloutError::PodNotDeleted)
    );
    assert_eq!(
        after(RolloutStage::ListPods, "other-1 1/1 Running"),
        RolloutNext::Failed(RolloutError::PodNotDeleted)
    );
    assert_eq!(
        after(RolloutStage::DeletePod, "error: pod not found"),
        RolloutNext::Failed(RolloutError::PodNotDeleted)
    );
}

#[test]
fn the_patch_is_its_layout_on_one_line() {
    let layout = format!(
        r#"{{"spec": {{
                "template": {{
                    "spec": {{
                        "containers": [
                            {{
                                "name": "{}",
                                "image": "{}",
                                 "imagePullPolicy": "Always"
                            }}
                        ]
                    }}
                }}
            }}
        }}"#,
        "my  site", "repo/site\n:2"
    );
    assert_eq!(
        DockerHandler::patch("my  site", "repo/site\n:2"),
        layout.replace("\n", "").replace("  ", "")
    );
    assert_eq!(
        DockerHandler::patch("a", "b"),
        "{\"spec\": {\"template\": {\"spec\": {\"containers\": [{\"name\": \"a\",\"image\": \"b\", \"imagePullPolicy\": \"Always\"}]}}}}"
    );
}

#[test]
fn a_patch_that_changed_nothing_asks_for_the_pod_to_go() {
    assert!(DockerHandler::needs_pod_delete("deployment.apps/site patched (no change)"));
    assert!(!DockerHandler::needs_pod_delete("deployment.apps/site patched"));
    assert!(!DockerHandler::needs_pod_delete(""));
}

#[test]
fn the_pod_of_the_image_is_found_in_the_list() {
    let c = config("Yes");
    assert_eq!(
        DockerHandler::pods(&c, "pw"),
        "echo pw | sudo -S -i kubectl get pod -n prod | grep site"
    );
    let list = "other-5d9   1/1 Running\nsite-7c9f-abcde   1/1   Running   0   3d\nsite-0   1/1";
    assert_eq!(
        DockerHandler::delete_pod_name(&c, "pw", list),
        Some("echo pw | sudo -S -i kubectl delete pod -n prod site-7c9f-abcde".to_string())
    );
    assert_eq!(DockerHandler::delete_pod_name(&c, "pw", "other-1 1/1 Running"), None);
    assert_eq!(DockerHandler::delete_pod_name(&c, "pw", ""), None);
    assert_eq!(DockerHandler::delete_pod_name(&c, "pw", " site-1 1/1"), None);
}

#[test]
fn a_pod_is_gone_when_the_command_says_deleted() {
    assert!(DockerHandler::pod_deleted("pod \"site-7c9f\" deleted\n"));
    assert!(DockerHandler::pod_deleted("deleted"));
    assert!(!DockerHandler::pod_deleted("pod \"site-7c9f\" deleted (dry run)"));
    assert!(!DockerHandler::pod_deleted(""));
}
