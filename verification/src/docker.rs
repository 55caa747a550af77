//! Building an image of the artifact and the commands that do it.

use vstd::prelude::*;
use crate::text::{same_text, starts_with, has_prefix, lines, lines_of, words, words_of};
use crate::text::{join_text, join_text3, join_all, joined, replace_all, replaced};
use crate::text::{contains, has_part, ends_with, has_suffix, trim, trim_of};

verus! {

/// The settings of an image build.
#[derive(Default, Debug, Clone)]
pub struct DockerConfig {
    /// Directory in which the commands run.
    pub dir: String,
    /// Content of the Dockerfile.
    pub dockerfile: String,
    /// Address of the remote registry.
    pub address: String,
    /// Name of the image.
    pub image: String,
    /// Version of the image.
    pub version: String,
    /// Namespace in the remote registry.
    pub namespace: String,
    /// User of the remote registry.
    pub user: String,
    /// Password of the remote registry.
    pub password: String,
    /// `Yes` where the image is pushed to the remote registry.
    pub need_push: String,
    /// Path of the nginx settings inside the image.
    pub nginx_path: String,
    /// Content of the nginx settings, where they are copied into the image.
    pub nginx_content: String,
    /// Platform that the image is built for.
    pub platform: String,
    /// Directory that is published inside the image.
    pub deploy_dir: String,
    /// Namespace of the cluster.
    pub kubernetes_namespace: String,
}

impl DockerConfig {
    /// Whether the image is pushed to the remote registry.
    pub open spec fn wants_push(&self) -> bool {
        self.need_push@ == "Yes"@
    }

    /// Settings are incomplete when the directory, the Dockerfile, the image
    /// or the platform is missing, or, for an image that is pushed, one of
    /// the settings of the registry and the cluster.
    pub open spec fn incomplete(&self) -> bool {
        if self.wants_push() {
            self.dir@.len() == 0 || self.dockerfile@.len() == 0 || self.image@.len() == 0
                || self.address@.len() == 0 || self.namespace@.len() == 0 || self.user@.len() == 0
                || self.password@.len() == 0 || self.platform@.len() == 0
                || self.kubernetes_namespace@.len() == 0
        } else {
            self.dir@.len() == 0 || self.dockerfile@.len() == 0 || self.image@.len() == 0
                || self.platform@.len() == 0
        }
    }

    /// Whether the image is pushed to the remote registry.
    pub fn is_pushed(&self) -> (r: bool)
        ensures
            r == self.wants_push(),
    {
        same_text(self.need_push.as_str(), "Yes")
    }

    pub fn is_empty(config: &DockerConfig) -> (r: bool)
        ensures
            r == config.incomplete(),
    {
        if config.is_pushed() {
            return config.dir.as_str().is_empty() || config.dockerfile.as_str().is_empty()
                || config.image.as_str().is_empty() || config.address.as_str().is_empty()
                || config.namespace.as_str().is_empty() || config.user.as_str().is_empty()
                || config.password.as_str().is_empty() || config.platform.as_str().is_empty()
                || config.kubernetes_namespace.as_str().is_empty();
        }
        config.dir.as_str().is_empty() || config.dockerfile.as_str().is_empty()
            || config.image.as_str().is_empty() || config.platform.as_str().is_empty()
    }
}

/// The rules of an image build.
pub struct DockerHandler;

/// The commands that a line of a Dockerfile asks for: for a line that begins
/// with `FROM ` and has a second word, `docker pull` joined with that word.
pub open spec fn pull_command_of(line: Seq<char>) -> Seq<Seq<char>> {
    if has_prefix(line, "FROM "@) && words_of(line).len() >= 2 {
        seq!["docker pull"@ + words_of(line)[1]]
    } else {
        Seq::empty()
    }
}

/// The pull commands for the lines `lines`, in their order.
pub open spec fn pull_commands(lines: Seq<Seq<char>>) -> Seq<Seq<char>>
    decreases lines.len(),
{
    if lines.len() == 0 {
        Seq::empty()
    } else {
        pull_commands(lines.drop_last()) + pull_command_of(lines.last())
    }
}

/// The full name of the image in the remote registry.
pub open spec fn image_name(config: DockerConfig) -> Seq<char> {
    config.address@ + "/"@ + config.namespace@ + "/"@ + config.image@ + ":"@ + config.version@
}

/// The Dockerfile that is built: the one of the settings; where nginx
/// settings are copied into the image, its lines with a line that adds them
/// and, where a directory is published, a line that copies it; and at its
/// end the line that starts nginx.
pub open spec fn dockerfile_content(config: DockerConfig, nginx_file_name: Seq<char>) -> Seq<
    char,
> {
    let body = if config.nginx_path@.len() > 0 && config.nginx_content@.len() > 0 {
        let added = lines_of(config.dockerfile@).push(
            "ADD "@ + nginx_file_name + " "@ + config.nginx_path@,
        );
        let all = if config.deploy_dir@.len() > 0 {
            added.push("COPY "@ + config.deploy_dir@ + " ./"@)
        } else {
            added
        };
        joined(all, "\n"@)
    } else {
        config.dockerfile@
    };
    body + "\n CMD [\"nginx\", \"-g\", \"daemon off;\"]"@
}

/// The build command. `builder` is `buildx` where docker has it, else empty.
pub open spec fn build_command(
    builder: Seq<char>,
    dockerfile_file_name: Seq<char>,
    tag: Seq<char>,
    platform: Seq<char>,
) -> Seq<char> {
    "docker "@ + builder + " build --file ./"@ + dockerfile_file_name + " -t "@ + tag
        + " --platform "@ + platform + " -o type=docker ."@
}

/// The commands of a build: enter the directory; then, for an image that is
/// pushed, log in, pull, build and push; for any other, build under the local
/// name.
pub open spec fn build_commands(
    config: DockerConfig,
    pulls: Seq<Seq<char>>,
    builder: Seq<char>,
    dockerfile_file_name: Seq<char>,
) -> Seq<Seq<char>> {
    if config.wants_push() {
        seq![
            "cd "@ + config.dir@,
            "docker login "@ + config.address@ + " --username "@ + config.user@ + " --password "@
                + config.password@,
        ] + pulls + seq![
            build_command(builder, dockerfile_file_name, image_name(config), config.platform@),
            "docker push "@ + image_name(config),
        ]
    } else {
        seq![
            "cd "@ + config.dir@,
            build_command(
                builder,
                dockerfile_file_name,
                config.image@ + ":"@ + config.version@,
                config.platform@,
            ),
        ]
    }
}

/// The words that make the commands that follow run as the superuser.
pub open spec fn login_command(password: Seq<char>) -> Seq<char> {
    "echo "@ + password + " | sudo -S -i"@
}

/// The command that shows the deployment of the image in the cluster.
pub open spec fn yaml_command(config: DockerConfig, login: Seq<char>) -> Seq<char> {
    login + " bash -c '"@ + ("kubectl get deploy "@ + config.image@ + " -n "@
        + config.kubernetes_namespace@ + " -o yaml"@) + "'"@
}

/// The patch that points the deployment at the image `image`, as it is laid
/// out for reading.
pub open spec fn patch_layout(name: Seq<char>, image: Seq<char>) -> Seq<char> {
    "{\"spec\": {\n                \"template\": {\n                    \"spec\": {\n                        \"containers\": [\n                            {\n                                \"name\": \""@ + name + "\",\n                                \"image\": \""@ + image + "\",\n                                 \"imagePullPolicy\": \"Always\"\n                            }\n                        ]\n                    }\n                }\n            }\n        }"@
}

/// The patch on one line: the layout without its line feeds and without its
/// pairs of blanks.
pub open spec fn patch_text(name: Seq<char>, image: Seq<char>) -> Seq<char> {
    replaced(replaced(patch_layout(name, image), "\n"@, Seq::empty()), "  "@, Seq::empty())
}

/// The command that points the deployment at the image `image`.
pub open spec fn patch_command(config: DockerConfig, login: Seq<char>, image: Seq<char>) -> Seq<
    char,
> {
    login + " kubectl patch deployment "@ + config.image@ + " -n "@ + config.kubernetes_namespace@
        + " --type=merge --patch '"@ + patch_text(config.image@, image) + "'"@
}

/// The command that starts the deployment again.
pub open spec fn restart_command(config: DockerConfig, login: Seq<char>) -> Seq<char> {
    login + " kubectl rollout restart deployment/"@ + config.image@ + " -n "@
        + config.kubernetes_namespace@
}

/// The command that lists the pods of the image.
pub open spec fn pods_command(config: DockerConfig, login: Seq<char>) -> Seq<char> {
    login + " kubectl get pod -n "@ + config.kubernetes_namespace@ + " | grep "@ + config.image@
}

/// The command that deletes the pod `pod`.
pub open spec fn delete_pod_command(config: DockerConfig, login: Seq<char>, pod: Seq<char>) -> Seq<
    char,
> {
    login + " kubectl delete pod -n "@ + config.kubernetes_namespace@ + " "@ + pod
}

/// The first of `lines` that begins with `image`.
pub open spec fn first_pod_line(lines: Seq<Seq<char>>, image: Seq<char>) -> Option<Seq<char>>
    decreases lines.len(),
{
    if lines.len() == 0 {
        None
    } else if has_prefix(lines[0], image) {
        Some(lines[0])
    } else {
        first_pod_line(lines.drop_first(), image)
    }
}

/// The name of the pod of the image in the list of pods `output`: the first
/// word of the first line that begins with the name of the image; empty
/// where there is none.
pub open spec fn pod_name_of(output: Seq<char>, image: Seq<char>) -> Seq<char> {
    match first_pod_line(lines_of(output), image) {
        Some(line) => if words_of(line).len() >= 1 {
            words_of(line)[0]
        } else {
            Seq::empty()
        },
        None => Seq::empty(),
    }
}

/// Why an image was not built.
#[derive(Debug, Clone, Copy, PartialEq, Eq, Structural)]
pub enum BuildError {
    /// A setting that the build needs is missing.
    ConfigIncomplete,
    /// Docker gave no answer when asked about itself.
    DockerNotRunning,
    /// The image is pushed, and the Dockerfile names no image to pull.
    NoPullCommand,
}

/// What follows once the commands of a build were run.
#[derive(Debug, Clone, Copy, PartialEq, Eq, Structural)]
pub enum AfterBuild {
    /// A command failed: the build failed.
    Failed,
    /// The image was built and pushed: bring it into the cluster.
    Rollout,
    /// The image was built and stays on this machine: all is done.
    Done,
}

/// The builder by what docker answered when asked for its `buildx`.
pub open spec fn builder_of(buildx_info: Seq<char>) -> Seq<char> {
    if buildx_info.len() > 0 {
        "buildx"@
    } else {
        Seq::empty()
    }
}

/// The outcome of planning a build. `docker_info` is what docker answered
/// when asked about itself, `buildx_info` what it answered when asked for
/// its `buildx`; an empty answer stands for none. Incomplete settings, a
/// docker that does not answer, and, for an image that is pushed, a
/// Dockerfile that names no image to pull end the build, in this order;
/// else the commands of the build come out.
pub open spec fn build_plan(
    config: DockerConfig,
    docker_info: Seq<char>,
    buildx_info: Seq<char>,
    dockerfile_file_name: Seq<char>,
) -> Result<Seq<Seq<char>>, BuildError> {
    if config.incomplete() {
        Err(BuildError::ConfigIncomplete)
    } else if docker_info.len() == 0 {
        Err(BuildError::DockerNotRunning)
    } else if config.wants_push() && pull_commands(lines_of(config.dockerfile@)).len() == 0 {
        Err(BuildError::NoPullCommand)
    } else {
        Ok(
            build_commands(
                config,
                pull_commands(lines_of(config.dockerfile@)),
                builder_of(buildx_info),
                dockerfile_file_name,
            ),
        )
    }
}

/// What follows once the commands of a build were run.
pub open spec fn after_build(config: DockerConfig, all_succeeded: bool) -> AfterBuild {
    if !all_succeeded {
        AfterBuild::Failed
    } else if config.wants_push() {
        AfterBuild::Rollout
    } else {
        AfterBuild::Done
    }
}

/// The commands that bring an image into the cluster.
#[derive(Debug, Clone, Copy, PartialEq, Eq, Structural)]
pub enum RolloutStage {
    /// Show the deployment.
    Show,
    /// Point the deployment at the image.
    Patch,
    /// List the pods of the image.
    ListPods,
    /// Delete the pod of the image.
    DeletePod,
    /// Start the deployment again.
    Restart,
}

/// Why an image did not come into the cluster.
#[derive(Debug, Clone, Copy, PartialEq, Eq, Structural)]
pub enum RolloutError {
    /// The cluster showed no deployment.
    NoYaml,
    /// The patch gave no answer.
    PatchFailed,
    /// The pod of the image was not found or not deleted.
    PodNotDeleted,
}

/// What to do next while an image is brought into the cluster.
#[derive(Debug, Clone, PartialEq, Eq)]
pub enum RolloutNext {
    /// Run this command on the host and come back with what it wrote.
    Run(RolloutStage, String),
    /// All is done; `true` where the deployment answered the restart.
    Done(bool),
    /// The rollout failed.
    Failed(RolloutError),
}

/// The mathematical value of a [`RolloutNext`].
pub enum RolloutStep {
    Run(RolloutStage, Seq<char>),
    Done(bool),
    Failed(RolloutError),
}

impl View for RolloutNext {
    type V = RolloutStep;

    open spec fn view(&self) -> RolloutStep {
        match self {
            RolloutNext::Run(stage, command) => RolloutStep::Run(*stage, command@),
            RolloutNext::Done(answered) => RolloutStep::Done(*answered),
            RolloutNext::Failed(error) => RolloutStep::Failed(*error),
        }
    }
}

/// The first step of a rollout: show the deployment.
pub open spec fn rollout_start(config: DockerConfig, login: Seq<char>) -> RolloutStep {
    RolloutStep::Run(RolloutStage::Show, yaml_command(config, login))
}

/// The step that follows once the command of `stage` wrote `output`.
/// A deployment that is not shown and a patch without an answer end the
/// rollout. A patch that changed nothing has the pod of the image looked up
/// and deleted before the restart, and the rollout ends where the pod is not
/// found or not deleted; any other patch leads to the restart at once. The
/// rollout is done with the restart.
pub open spec fn rollout_after(
    config: DockerConfig,
    image: Seq<char>,
    login: Seq<char>,
    stage: RolloutStage,
    output: Seq<char>,
) -> RolloutStep {
    match stage {
        RolloutStage::Show => if output.len() == 0 {
            RolloutStep::Failed(RolloutError::NoYaml)
        } else {
            RolloutStep::Run(RolloutStage::Patch, patch_command(config, login, image))
        },
        RolloutStage::Patch => if output.len() == 0 {
            RolloutStep::Failed(RolloutError::PatchFailed)
        } else if has_part(output, "no change"@) {
            RolloutStep::Run(RolloutStage::ListPods, pods_command(config, login))
        } else {
            RolloutStep::Run(RolloutStage::Restart, restart_command(config, login))
        },
        RolloutStage::ListPods => if pod_name_of(output, config.image@).len() == 0 {
            RolloutStep::Failed(RolloutError::PodNotDeleted)
        } else {
            RolloutStep::Run(
                RolloutStage::DeletePod,
                delete_pod_command(config, login, pod_name_of(output, config.image@)),
            )
        },
        RolloutStage::DeletePod => if has_suffix(trim_of(output), "deleted"@) {
            RolloutStep::Run(RolloutStage::Restart, restart_command(config, login))
        } else {
            RolloutStep::Failed(RolloutError::PodNotDeleted)
        },
        RolloutStage::Restart => RolloutStep::Done(output.len() > 0),
    }
}

impl DockerHandler {
    /// The words that make the commands that follow run as the superuser.
    pub fn login(password: &str) -> (r: String)
        ensures
            r@ == login_command(password@),
    {
        join_text3("echo ", password, " | sudo -S -i")
    }

    /// The patch that points the deployment `name` at the image `image`.
    pub fn patch(name: &str, image: &str) -> (r: String)
        ensures
            r@ == patch_text(name@, image@),
    {
        proof {
            reveal_strlit("");
            assert(""@ =~= Seq::<char>::empty());
        }
        let mut layout = join_text3(
            "{\"spec\": {\n                \"template\": {\n                    \"spec\": {\n                        \"containers\": [\n                            {\n                                \"name\": \"",
            name,
            "\",\n                                \"image\": \"",
        );
        layout.append(image);
        layout.append(
            "\",\n                                 \"imagePullPolicy\": \"Always\"\n                            }\n                        ]\n                    }\n                }\n            }\n        }",
        );
        let lined = replace_all(layout.as_str(), "\n", "");
        replace_all(lined.as_str(), "  ", "")
    }

    /// The command that shows the deployment of the image.
    pub fn show(config: &DockerConfig, password: &str) -> (r: String)
        ensures
            r@ == yaml_command(*config, login_command(password@)),
    {
        let login = Self::login(password);
        let mut show = join_text(login.as_str(), " bash -c '");
        let mut inner = join_text("kubectl get deploy ", config.image.as_str());
        inner.append(" -n ");
        inner.append(config.kubernetes_namespace.as_str());
        inner.append(" -o yaml");
        show.append(inner.as_str());
        show.append("'");
        show
    }

    /// The command that points the deployment at the image `image`.
    pub fn change(config: &DockerConfig, image: &str, password: &str) -> (r: String)
        ensures
            r@ == patch_command(*config, login_command(password@), image@),
    {
        let login = Self::login(password);
        let patch = Self::patch(config.image.as_str(), image);
        let mut change = join_text(login.as_str(), " kubectl patch deployment ");
        change.append(config.image.as_str());
        change.append(" -n ");
        change.append(config.kubernetes_namespace.as_str());
        change.append(" --type=merge --patch '");
        change.append(patch.as_str());
        change.append("'");
        change
    }

    /// The command that starts the deployment again.
    pub fn restart(config: &DockerConfig, password: &str) -> (r: String)
        ensures
            r@ == restart_command(*config, login_command(password@)),
    {
        let login = Self::login(password);
        let mut restart = join_text(login.as_str(), " kubectl rollout restart deployment/");
        restart.append(config.image.as_str());
        restart.append(" -n ");
        restart.append(config.kubernetes_namespace.as_str());
        restart
    }

    /// What to do next while the image `image` is brought into the cluster.
    /// `done` is the command that was run last and what it wrote, `None`
    /// where the rollout begins.
    pub fn update_image(
        config: &DockerConfig,
        image: &str,
        password: &str,
        done: Option<(RolloutStage, &str)>,
    ) -> (r: RolloutNext)
        ensures
            r@ == (match done {
                None => rollout_start(*config, login_command(password@)),
                Some(last) => rollout_after(
                    *config,
                    image@,
                    login_command(password@),
                    last.0,
                    last.1@,
                ),
            }),
    {
        match done {
            None => RolloutNext::Run(RolloutStage::Show, Self::show(config, password)),
            Some((stage, output)) => match stage {
                RolloutStage::Show => {
                    if output.is_empty() {
                        RolloutNext::Failed(RolloutError::NoYaml)
                    } else {
                        RolloutNext::Run(RolloutStage::Patch, Self::change(config, image, password))
                    }
                },
                RolloutStage::Patch => {
                    if output.is_empty() {
                        RolloutNext::Failed(RolloutError::PatchFailed)
                    } else if Self::needs_pod_delete(output) {
                        RolloutNext::Run(RolloutStage::ListPods, Self::pods(config, password))
                    } else {
                        RolloutNext::Run(RolloutStage::Restart, Self::restart(config, password))
                    }
                },
                RolloutStage::ListPods => {
                    match Self::delete_pod_name(config, password, output) {
                        Some(command) => RolloutNext::Run(RolloutStage::DeletePod, command),
                        None => RolloutNext::Failed(RolloutError::PodNotDeleted),
                    }
                },
                RolloutStage::DeletePod => {
                    if Self::pod_deleted(output) {
                        RolloutNext::Run(RolloutStage::Restart, Self::restart(config, password))
                    } else {
                        RolloutNext::Failed(RolloutError::PodNotDeleted)
                    }
                },
                RolloutStage::Restart => RolloutNext::Done(!output.is_empty()),
            },
        }
    }

    /// Whether the patch changed nothing, so that the pod has to be deleted
    /// for the image to be fetched again.
    pub fn needs_pod_delete(output: &str) -> (r: bool)
        ensures
            r == has_part(output@, "no change"@),
    {
        contains(output, "no change")
    }

    /// The command that lists the pods of the image.
    pub fn pods(config: &DockerConfig, password: &str) -> (r: String)
        ensures
            r@ == pods_command(*config, login_command(password@)),
    {
        let login = Self::login(password);
        let mut out = join_text(login.as_str(), " kubectl get pod -n ");
        out.append(config.kubernetes_namespace.as_str());
        out.append(" | grep ");
        out.append(config.image.as_str());
        out
    }

    /// The name of the pod of the image, read from the list of pods
    /// `output`, and the command that deletes it; `None` where the list
    /// names no pod of the image.
    pub fn delete_pod_name(config: &DockerConfig, password: &str, output: &str) -> (r: Option<
        String,
    >)
        ensures
            pod_name_of(output@, config.image@).len() == 0 ==> r is None,
            pod_name_of(output@, config.image@).len() > 0 ==> r is Some && r->Some_0@
                == delete_pod_command(
                *config,
                login_command(password@),
                pod_name_of(output@, config.image@),
            ),
    {
        let all = lines(output);
        let mut i: usize = 0;
        let mut pod = String::new();
        assert(all.deep_view().subrange(0, all@.len() as int) =~= all.deep_view());
        while i < all.len()
            invariant_except_break
                i <= all@.len(),
                all.deep_view() == lines_of(output@),
                pod@.len() == 0,
                first_pod_line(all.deep_view(), config.image@) == first_pod_line(
                    all.deep_view().subrange(i as int, all@.len() as int),
                    config.image@,
                ),
            ensures
                pod@ == pod_name_of(output@, config.image@),
            decreases all@.len() - i,
        {
            let ghost rest = all.deep_view().subrange(i as int, all@.len() as int);
            assert(rest[0] == all@[i as int]@);
            assert(rest.drop_first() =~= all.deep_view().subrange(i + 1, all@.len() as int));
            let line = all[i].as_str();
            if starts_with(line, config.image.as_str()) {
                let parts = words(line);
                assert(first_pod_line(rest, config.image@) == Some(rest[0]));
                assert(parts.deep_view().len() == parts@.len());
                if parts.len() >= 1 {
                    assert(parts.deep_view()[0] == parts@[0]@);
                    pod = parts[0].clone();
                }
                break ;
            }
            i = i + 1;
        }
        if pod.as_str().is_empty() {
            return None;
        }
        let login = Self::login(password);
        let mut out = join_text(login.as_str(), " kubectl delete pod -n ");
        out.append(config.kubernetes_namespace.as_str());
        out.append(" ");
        out.append(pod.as_str());
        Some(out)
    }

    /// Whether the pod was deleted, going by what the command wrote.
    pub fn pod_deleted(output: &str) -> (r: bool)
        ensures
            r == has_suffix(trim_of(output@), "deleted"@),
    {
        let text = trim(output);
        ends_with(text.as_str(), "deleted")
    }

    /// The commands that pull the images that the Dockerfile builds on.
    pub fn exec_docker_pull_nginx(docker_config: &DockerConfig) -> (r: Vec<String>)
        ensures
            r.deep_view() == pull_commands(lines_of(docker_config.dockerfile@)),
    {
        let all = lines(docker_config.dockerfile.as_str());
        let mut commands: Vec<String> = Vec::new();
        let mut i: usize = 0;
        assert(all.deep_view().subrange(0, 0) =~= Seq::<Seq<char>>::empty());
        assert(commands.deep_view() =~= Seq::<Seq<char>>::empty());
        while i < all.len()
            invariant
                i <= all@.len(),
                commands.deep_view() == pull_commands(all.deep_view().subrange(0, i as int)),
            decreases all@.len() - i,
        {
            let ghost head = all.deep_view().subrange(0, i as int);
            let ghost next = all.deep_view().subrange(0, i + 1);
            let ghost before = commands.deep_view();
            assert(next.drop_last() =~= head);
            assert(next.last() == all@[i as int]@);
            let line = all[i].as_str();
            if starts_with(line, "FROM ") {
                let parts = words(line);
                assert(parts.deep_view().len() == parts@.len());
                if parts.len() >= 2 {
                    assert(parts.deep_view()[1] == parts@[1]@);
                    commands.push(join_text("docker pull", parts[1].as_str()));
                    assert(commands.deep_view() =~= before + pull_command_of(line@));
                } else {
                    assert(commands.deep_view() =~= before + pull_command_of(line@));
                }
            } else {
                assert(commands.deep_view() =~= before + pull_command_of(line@));
            }
            i = i + 1;
        }
        assert(all.deep_view().subrange(0, i as int) =~= all.deep_view());
        commands
    }

    /// The full name of the image in the remote registry.
    pub fn image(config: &DockerConfig) -> (r: String)
        ensures
            r@ == image_name(*config),
    {
        let mut out = config.address.clone();
        out.append("/");
        out.append(config.namespace.as_str());
        out.append("/");
        out.append(config.image.as_str());
        out.append(":");
        out.append(config.version.as_str());
        out
    }

    /// The content of the Dockerfile that is built. `nginx_file_name` is the
    /// file that holds the nginx settings.
    pub fn dockerfile(config: &DockerConfig, nginx_file_name: &str) -> (r: String)
        ensures
            r@ == dockerfile_content(*config, nginx_file_name@),
    {
        let mut content = if !config.nginx_path.as_str().is_empty()
            && !config.nginx_content.as_str().is_empty() {
            let mut all = lines(config.dockerfile.as_str());
            let ghost first = all.deep_view();
            let mut add = join_text("ADD ", nginx_file_name);
            add.append(" ");
            add.append(config.nginx_path.as_str());
            all.push(add);
            assert(all.deep_view() =~= first.push(
                "ADD "@ + nginx_file_name@ + " "@ + config.nginx_path@,
            ));
            if !config.deploy_dir.as_str().is_empty() {
                let ghost second = all.deep_view();
                let mut copy = join_text("COPY ", config.deploy_dir.as_str());
                copy.append(" ./");
                all.push(copy);
                assert(all.deep_view() =~= second.push("COPY "@ + config.deploy_dir@ + " ./"@));
            }
            join_all(&all, "\n")
        } else {
            config.dockerfile.clone()
        };
        content.append("\n CMD [\"nginx\", \"-g\", \"daemon off;\"]");
        content
    }

    /// The build command.
    pub fn build(builder: &str, dockerfile_file_name: &str, tag: &str, platform: &str) -> (r:
        String)
        ensures
            r@ == build_command(builder@, dockerfile_file_name@, tag@, platform@),
    {
        let mut out = join_text("docker ", builder);
        out.append(" build --file ./");
        out.append(dockerfile_file_name);
        out.append(" -t ");
        out.append(tag);
        out.append(" --platform ");
        out.append(platform);
        out.append(" -o type=docker .");
        out
    }

    /// Plans a build: the commands to run, or why there is no build.
    /// `docker_info` is what docker answered when asked about itself,
    /// `buildx_info` what it answered when asked for its `buildx`, an empty
    /// answer standing for none; `dockerfile_file_name` is the file that
    /// holds the Dockerfile.
    pub fn exec(
        config: &DockerConfig,
        docker_info: &str,
        buildx_info: &str,
        dockerfile_file_name: &str,
    ) -> (r: Result<Vec<String>, BuildError>)
        ensures
            match r {
                Ok(commands) => build_plan(
                    *config,
                    docker_info@,
                    buildx_info@,
                    dockerfile_file_name@,
                ) == Ok::<Seq<Seq<char>>, BuildError>(commands.deep_view()),
                Err(e) => build_plan(*config, docker_info@, buildx_info@, dockerfile_file_name@)
                    == Err::<Seq<Seq<char>>, BuildError>(e),
            },
    {
        if DockerConfig::is_empty(config) {
            return Err(BuildError::ConfigIncomplete);
        }
        if docker_info.is_empty() {
            return Err(BuildError::DockerNotRunning);
        }
        let pulls = Self::exec_docker_pull_nginx(config);
        assert(pulls.deep_view().len() == pulls@.len());
        if config.is_pushed() && pulls.len() == 0 {
            return Err(BuildError::NoPullCommand);
        }
        Ok(Self::commands(config, &pulls, !buildx_info.is_empty(), dockerfile_file_name))
    }

    /// What follows once the commands of a build were run; `all_succeeded`
    /// says whether each of them succeeded.
    pub fn built(config: &DockerConfig, all_succeeded: bool) -> (r: AfterBuild)
        ensures
            r == after_build(*config, all_succeeded),
    {
        if !all_succeeded {
            AfterBuild::Failed
        } else if config.is_pushed() {
            AfterBuild::Rollout
        } else {
            AfterBuild::Done
        }
    }

    /// The commands of a build. `pulls` are the pull commands, `buildx` says
    /// whether docker has the `buildx` builder, `dockerfile_file_name` is the
    /// file that holds the Dockerfile.
    pub fn commands(
        config: &DockerConfig,
        pulls: &Vec<String>,
        buildx: bool,
        dockerfile_file_name: &str,
    ) -> (r: Vec<String>)
        ensures
            r.deep_view() == build_commands(
                *config,
                pulls.deep_view(),
                if buildx {
                    "buildx"@
                } else {
                    Seq::<char>::empty()
                },
                dockerfile_file_name@,
            ),
    {
        let builder = if buildx {
            "buildx"
        } else {
            ""
        };
        proof {
            reveal_strlit("");
            assert(""@ =~= Seq::<char>::empty());
        }
        let mut commands: Vec<String> = Vec::new();
        commands.push(join_text("cd ", config.dir.as_str()));
        if config.is_pushed() {
            let tag = Self::image(config);
            let mut login = join_text("docker login ", config.address.as_str());
            login.append(" --username ");
            login.append(config.user.as_str());
            login.append(" --password ");
            login.append(config.password.as_str());
            commands.push(login);
            let ghost head = commands.deep_view();
            assert(head =~= seq![
                "cd "@ + config.dir@,
                "docker login "@ + config.address@ + " --username "@ + config.user@
                    + " --password "@ + config.password@,
            ]);
            crate::upload::SftpUpload::append_commands(&mut commands, pulls);
            let ghost middle = commands.deep_view();
            commands.push(
                Self::build(builder, dockerfile_file_name, tag.as_str(), config.platform.as_str()),
            );
            commands.push(join_text("docker push ", tag.as_str()));
            assert(commands.deep_view() =~= middle + seq![
                build_command(
                    builder@,
                    dockerfile_file_name@,
                    image_name(*config),
                    config.platform@,
                ),
                "docker push "@ + image_name(*config),
            ]);
            commands
        } else {
            let mut tag = config.image.clone();
            tag.append(":");
            tag.append(config.version.as_str());
            commands.push(
                Self::build(builder, dockerfile_file_name, tag.as_str(), config.platform.as_str()),
            );
            assert(commands.deep_view() =~= seq![
                "cd "@ + config.dir@,
                build_command(
                    builder@,
                    dockerfile_file_name@,
                    config.image@ + ":"@ + config.version@,
                    config.platform@,
                ),
            ]);
            commands
        }
    }
}

} // verus!
