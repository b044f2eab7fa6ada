//! The management service's own rules: who may call it, which `docker`
//! command lines it runs, and how it reads what they print.
//!
//! Nothing here runs a command. Each function hands back the command line
//! to run, or reads the output of one that has run.

use crate::text::{decimal, lines_of, push_text, replace_char, replaced, split_lines, to_decimal, trim, trimmed};
use vstd::prelude::*;

verus! {

/// A running container.
#[derive(Debug, Clone, PartialEq, Eq)]
pub struct Container {
    pub id: String,
    pub name: String,
}

/// The service's configuration.
#[derive(Debug, Clone, PartialEq, Eq)]
pub struct AppConfig {
    /// The image that every station's container runs.
    pub image: String,
    /// Where the recognizers send what they recognize.
    pub endpoint: String,
    /// The seconds between two recognitions.
    pub interval: usize,
}

/// A station to recognize.
#[derive(Debug, Clone, PartialEq, Eq)]
pub struct RadioStation {
    pub name: String,
    pub url: String,
}

/// A container as a mathematical value.
pub struct ContainerModel {
    pub id: Seq<char>,
    pub name: Seq<char>,
}

impl View for Container {
    type V = ContainerModel;

    open spec fn view(&self) -> ContainerModel {
        ContainerModel { id: self.id@, name: self.name@ }
    }
}

impl DeepView for Container {
    type V = ContainerModel;

    open spec fn deep_view(&self) -> ContainerModel {
        self@
    }
}

/// Why a caller is turned away.
#[derive(Debug, Clone, Copy, PartialEq, Eq, Structural)]
pub enum AuthError {
    /// The service has no token to compare with.
    NotConfigured,
    /// The caller's token is not the service's.
    Unauthorized,
}

/// Admits a caller that presents `token`, where the service was given
/// `expected`: only the very same token is admitted.
pub fn check(expected: Option<&str>, token: &str) -> (admitted: Result<(), AuthError>)
    ensures
        match expected {
            None => admitted == Err::<(), AuthError>(AuthError::NotConfigured),
            Some(secret) => if secret@ == token@ {
                admitted == Ok::<(), AuthError>(())
            } else {
                admitted == Err::<(), AuthError>(AuthError::Unauthorized)
            },
        },
{
    match expected {
        None => Err(AuthError::NotConfigured),
        Some(secret) => {
            let same = secret.to_owned() == token.to_owned();
            if same {
                Ok(())
            } else {
                Err(AuthError::Unauthorized)
            }
        },
    }
}

/// The command line that lists the running containers: two lines for each,
/// its id and then its name, which is the listing that
/// `get_running_containers` reads.
pub fn list_containers() -> (line: Vec<String>)
    ensures
        line.deep_view() == seq!["docker"@, "ps"@, "--format"@, "{{.ID}}\n{{.Names}}"@],
{
    let mut line: Vec<String> = Vec::new();
    proof {
        assert(line.deep_view() =~= Seq::<Seq<char>>::empty());
    }
    push_text(&mut line, "docker");
    push_text(&mut line, "ps");
    push_text(&mut line, "--format");
    push_text(&mut line, "{{.ID}}\n{{.Names}}");
    proof {
        assert(line.deep_view() =~= seq!["docker"@, "ps"@, "--format"@, "{{.ID}}\n{{.Names}}"@]);
    }
    line
}

/// The containers that a listing of alternating lines names: an id, then
/// the name that belongs to it, each without the white space around it.
pub open spec fn containers_in(lines: Seq<Seq<char>>) -> Seq<ContainerModel> {
    Seq::new(
        lines.len() / 2,
        |i: int| ContainerModel { id: trimmed(lines[2 * i]), name: trimmed(lines[2 * i + 1]) },
    )
}

/// Reads the running containers out of `listing`, which holds two lines
/// for each: its id and its name. A listing that ends in an id without a
/// name is not read.
pub fn get_running_containers(listing: &str) -> (containers: Option<Vec<Container>>)
    ensures
        lines_of(listing@).len() % 2 == 0 ==> containers.deep_view() == Some(
            containers_in(lines_of(listing@)),
        ),
        lines_of(listing@).len() % 2 != 0 ==> containers is None,
{
    let lines = split_lines(listing);
    if lines.len() % 2 != 0 {
        return None;
    }
    let pairs: usize = lines.len() / 2;
    let mut containers: Vec<Container> = Vec::new();
    let mut i: usize = 0;
    while i < pairs
        invariant
            lines.deep_view() == lines_of(listing@),
            lines.len() == 2 * pairs,
            i <= pairs,
            containers.deep_view() == containers_in(lines_of(listing@)).take(i as int),
        decreases pairs - i,
    {
        let id = trim(lines[2 * i].as_str());
        let name = trim(lines[2 * i + 1].as_str());
        let ghost before = containers.deep_view();
        proof {
            assert(lines.deep_view()[2 * i] == lines@[2 * i]@);
            assert(lines.deep_view()[2 * i + 1] == lines@[2 * i + 1]@);
        }
        containers.push(Container { id, name });
        proof {
            let all = containers_in(lines_of(listing@));
            assert(containers.deep_view() =~= before.push(all[i as int]));
            assert(all.take(i + 1) =~= all.take(i as int).push(all[i as int]));
        }
        i = i + 1;
    }
    proof {
        let all = containers_in(lines_of(listing@));
        assert(all.take(pairs as int) =~= all);
    }
    Some(containers)
}

/// A `docker` command line of a verb and one operand.
fn docker(verb: &str, operand: &str) -> (line: Vec<String>)
    ensures
        line.deep_view() == seq!["docker"@, verb@, operand@],
{
    let mut line: Vec<String> = Vec::new();
    proof {
        assert(line.deep_view() =~= Seq::<Seq<char>>::empty());
    }
    push_text(&mut line, "docker");
    push_text(&mut line, verb);
    push_text(&mut line, operand);
    proof {
        assert(line.deep_view() =~= seq!["docker"@, verb@, operand@]);
    }
    line
}

/// The command lines that remove the container `name`: it is stopped, then
/// deleted.
pub fn remove_container(name: &str) -> (lines: Vec<Vec<String>>)
    ensures
        lines.deep_view() == seq![
            seq!["docker"@, "stop"@, name@],
            seq!["docker"@, "rm"@, name@],
        ],
{
    let mut lines: Vec<Vec<String>> = Vec::new();
    lines.push(docker("stop", name));
    lines.push(docker("rm", name));
    proof {
        assert(lines.deep_view() =~= seq![
            seq!["docker"@, "stop"@, name@],
            seq!["docker"@, "rm"@, name@],
        ]);
    }
    lines
}

/// The command line that restarts the container `name`.
pub fn restart_container(name: &str) -> (line: Vec<String>)
    ensures
        line.deep_view() == seq!["docker"@, "restart"@, name@],
{
    docker("restart", name)
}

/// The command line that restarts every container, running or not: a
/// shell that hands the ids of all containers to one `docker restart`.
pub fn restart_everything() -> (line: Vec<String>)
    ensures
        line.deep_view() == seq!["bash"@, "-c"@, "docker restart $(docker ps -a -q)"@],
{
    let mut line: Vec<String> = Vec::new();
    proof {
        assert(line.deep_view() =~= Seq::<Seq<char>>::empty());
    }
    push_text(&mut line, "bash");
    push_text(&mut line, "-c");
    push_text(&mut line, "docker restart $(docker ps -a -q)");
    proof {
        assert(line.deep_view() =~= seq![
            "bash"@,
            "-c"@,
            "docker restart $(docker ps -a -q)"@,
        ]);
    }
    line
}

/// The messages that restarting every container printed: the lines of
/// `output`.
pub fn restart_all_containers(output: &str) -> (messages: Vec<String>)
    ensures
        messages.deep_view() == lines_of(output@),
{
    split_lines(output)
}

/// The name of the container that recognizes `station`: the station's
/// name, with `_` for each space.
pub open spec fn container_name(station: Seq<char>) -> Seq<char> {
    replaced(station, ' ', "_"@)
}

/// The command line that starts a recognizer for `station`.
pub open spec fn creation_line(station: RadioStation, config: AppConfig) -> Seq<Seq<char>> {
    seq![
        "docker"@,
        "run"@,
        "--restart=always"@,
        "-d"@,
        "--init"@,
        "--name"@,
        container_name(station.name@),
        config.image@,
        "--debug"@,
        "--station"@,
        station.url@,
        "--interval"@,
        decimal(config.interval as nat),
        "--endpoint"@,
        config.endpoint@,
    ]
}

/// The command line that starts a container for `station`: detached, always
/// restarted, named after the station, and running the configured image
/// with the station's address, the interval and the endpoint.
pub fn create_new_container(station: &RadioStation, config: &AppConfig) -> (line: Vec<String>)
    ensures
        line.deep_view() == creation_line(*station, *config),
{
    let mut line: Vec<String> = Vec::new();
    proof {
        assert(line.deep_view() =~= Seq::<Seq<char>>::empty());
    }
    let name = replace_char(station.name.as_str(), ' ', "_");
    let interval = to_decimal(config.interval as u64);
    push_text(&mut line, "docker");
    push_text(&mut line, "run");
    push_text(&mut line, "--restart=always");
    push_text(&mut line, "-d");
    push_text(&mut line, "--init");
    push_text(&mut line, "--name");
    push_text(&mut line, name.as_str());
    push_text(&mut line, config.image.as_str());
    push_text(&mut line, "--debug");
    push_text(&mut line, "--station");
    push_text(&mut line, station.url.as_str());
    push_text(&mut line, "--interval");
    push_text(&mut line, interval.as_str());
    push_text(&mut line, "--endpoint");
    push_text(&mut line, config.endpoint.as_str());
    proof {
        assert(line.deep_view() =~= creation_line(*station, *config));
    }
    line
}

/// The command line that fetches the image `name`.
pub fn pull_image(name: &str) -> (line: Vec<String>)
    ensures
        line.deep_view() == seq!["docker"@, "pull"@, name@],
{
    docker("pull", name)
}

} // verus!
