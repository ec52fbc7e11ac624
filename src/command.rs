use vstd::prelude::*;

verus! {

/// An external program run with an exact argument list and, where given,
/// an exact text on its standard input.
#[derive(Clone, Debug, PartialEq, Eq)]
pub struct Invocation {
    pub program: String,
    pub args: Vec<String>,
    pub input: Option<String>,
}

/// An invocation as plain text.
pub struct InvocationView {
    pub program: Seq<char>,
    pub args: Seq<Seq<char>>,
    pub input: Option<Seq<char>>,
}

impl View for Invocation {
    type V = InvocationView;

    open spec fn view(&self) -> InvocationView {
        InvocationView {
            program: self.program@,
            args: self.args@.map_values(|a: String| a@),
            input: match self.input {
                Some(t) => Some(t@),
                None => None,
            },
        }
    }
}

/// The external commands that the flows run.
#[derive(Clone, Debug, PartialEq, Eq)]
pub enum Command {
    /// Build the compose stack's images, with the repository's relative git
    /// path as a build argument where one is known.
    Build(Option<String>),
    /// Start the compose stack detached.
    Start,
    /// List the ids of the stack's running containers.
    Locate,
    /// Run the tests inside a container (its id, and the name of this
    /// program's binary there).
    Test(String, String),
    /// Stop the compose stack.
    Stop,
    /// Preseed the package manager's frontend as non-interactive.
    Preseed,
    /// Run the bootstrap script with its canned answers.
    Bootstrap,
}

pub open spec fn compose() -> Seq<char> {
    "docker-compose"@
}

/// The build argument that carries the repository's relative git path.
pub open spec fn build_arg(rel: Seq<char>) -> Seq<char> {
    "DOTS_REPO_GIT_RELATIVE="@ + rel
}

/// The shell command that runs the tests inside the container.
pub open spec fn test_script(bin: Seq<char>) -> Seq<char> {
    "~/bin/"@ + bin + " run"@
}

/// What the package manager's preseeding reads: the privilege password, then
/// the selection.
pub open spec fn preseed_input() -> Seq<char> {
    "hamu\ndebconf debconf/frontend select Noninteractive\n"@
}

/// The bootstrap script's answers: one affirmation, then four confirmations.
pub open spec fn bootstrap_answers() -> Seq<char> {
    "y\nhamu\nhamu\nhamu\nhamu\n"@
}

impl Command {
    pub open spec fn spec_invocation(self) -> InvocationView {
        match self {
            Command::Build(rel) => InvocationView {
                program: compose(),
                args: match rel {
                    Some(r) => seq!["build"@, "--build-arg"@, build_arg(r@)],
                    None => seq!["build"@],
                },
                input: None,
            },
            Command::Start => InvocationView {
                program: compose(),
                args: seq!["up"@, "-d"@],
                input: None,
            },
            Command::Locate => InvocationView {
                program: compose(),
                args: seq!["ps"@, "-q"@],
                input: None,
            },
            Command::Test(id, bin) => InvocationView {
                program: "docker"@,
                args: seq!["exec"@, "-t"@, id@, "bash"@, "-c"@, test_script(bin@)],
                input: None,
            },
            Command::Stop => InvocationView {
                program: compose(),
                args: seq!["down"@],
                input: None,
            },
            Command::Preseed => InvocationView {
                program: "sudo"@,
                args: seq!["-kS"@, "debconf-set-selections"@],
                input: Some(preseed_input()),
            },
            Command::Bootstrap => InvocationView {
                program: "./bin/yadm"@,
                args: seq!["bootstrap"@],
                input: Some(bootstrap_answers()),
            },
        }
    }

    /// Whether this command stops the compose stack.
    pub open spec fn is_stop(self) -> bool {
        self is Stop
    }

    /// The exact program, arguments and input of the command.
    pub fn invocation(&self) -> (r: Invocation)
        ensures
            r@ == self.spec_invocation(),
    {
        let mut args: Vec<String> = Vec::new();
        match self {
            Command::Build(rel) => {
                args.push("build".to_owned());
                match rel {
                    Some(r) => {
                        args.push("--build-arg".to_owned());
                        let mut a = "DOTS_REPO_GIT_RELATIVE=".to_owned();
                        a.append(r.as_str());
                        args.push(a);
                    },
                    None => {},
                }
                let r = Invocation { program: "docker-compose".to_owned(), args, input: None };
                assert(r@.args =~= self.spec_invocation().args);
                r
            },
            Command::Start => {
                args.push("up".to_owned());
                args.push("-d".to_owned());
                let r = Invocation { program: "docker-compose".to_owned(), args, input: None };
                assert(r@.args =~= self.spec_invocation().args);
                r
            },
            Command::Locate => {
                args.push("ps".to_owned());
                args.push("-q".to_owned());
                let r = Invocation { program: "docker-compose".to_owned(), args, input: None };
                assert(r@.args =~= self.spec_invocation().args);
                r
            },
            Command::Test(id, bin) => {
                args.push("exec".to_owned());
                args.push("-t".to_owned());
                args.push(id.clone());
                args.push("bash".to_owned());
                args.push("-c".to_owned());
                let mut script = "~/bin/".to_owned();
                script.append(bin.as_str());
                script.append(" run");
                args.push(script);
                let r = Invocation { program: "docker".to_owned(), args, input: None };
                assert(r@.args =~= self.spec_invocation().args);
                r
            },
            Command::Stop => {
                args.push("down".to_owned());
                let r = Invocation { program: "docker-compose".to_owned(), args, input: None };
                assert(r@.args =~= self.spec_invocation().args);
                r
            },
            Command::Preseed => {
                args.push("-kS".to_owned());
                args.push("debconf-set-selections".to_owned());
                let input = "hamu\ndebconf debconf/frontend select Noninteractive\n".to_owned();
                let r = Invocation { program: "sudo".to_owned(), args, input: Some(input) };
                assert(r@.args =~= self.spec_invocation().args);
                r
            },
            Command::Bootstrap => {
                args.push("bootstrap".to_owned());
                let input = "y\nhamu\nhamu\nhamu\nhamu\n".to_owned();
                let r = Invocation { program: "./bin/yadm".to_owned(), args, input: Some(input) };
                assert(r@.args =~= self.spec_invocation().args);
                r
            },
        }
    }
}

} // verus!
