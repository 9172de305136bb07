use vstd::prelude::*;
use crate::error::InstallerError;
use crate::relocate::{join_path, joined_path};

verus! {

/// One resource to fetch into `directory`, under `file_name`.
pub struct DownloadJob {
    pub url: String,
    pub directory: String,
    pub file_name: String,
}

/// Whether an HTTP status reports success.
pub open spec fn is_success_status(status: u16) -> bool {
    200 <= status <= 299
}

impl DownloadJob {
    pub fn new(url: &str, directory: &str, file_name: &str) -> (r: Self)
        ensures
            r.url@ == url@,
            r.directory@ == directory@,
            r.file_name@ == file_name@,
    {
        DownloadJob { url: url.to_owned(), directory: directory.to_owned(), file_name: file_name.to_owned() }
    }

    /// The local file the resource is written to.
    pub fn path(&self) -> (r: String)
        ensures
            r@ == joined_path(self.directory@, self.file_name@),
    {
        join_path(self.directory.as_str(), self.file_name.as_str())
    }

    /// Decides a fetch from the status the server answered with: a success
    /// status yields the local path, any other the `DownloadError` that
    /// carries the URL and the status.
    pub fn outcome(&self, status: u16) -> (r: Result<String, InstallerError>)
        ensures
            is_success_status(status) ==> (r matches Ok(p) && p@ == joined_path(
                self.directory@,
                self.file_name@,
            )),
            !is_success_status(status) ==> (r matches Err(InstallerError::DownloadError(u, s))
                && u@ == self.url@ && s == status),
    {
        if 200 <= status && status <= 299 {
            Ok(self.path())
        } else {
            Err(InstallerError::DownloadError(self.url.clone(), status))
        }
    }
}

/// One archive to unpack into `destination`.
pub struct ExtractJob {
    pub archive: String,
    pub destination: String,
}

impl ExtractJob {
    pub fn new(archive: &str, destination: &str) -> (r: Self)
        ensures
            r.archive@ == archive@,
            r.destination@ == destination@,
    {
        ExtractJob { archive: archive.to_owned(), destination: destination.to_owned() }
    }
}

/// A script to write: its path and its text, written verbatim.
pub struct ScriptSpec {
    pub path: String,
    pub text: String,
}

impl ScriptSpec {
    pub fn new(path: &str, text: &str) -> (r: Self)
        ensures
            r.path@ == path@,
            r.text@ == text@,
    {
        ScriptSpec { path: path.to_owned(), text: text.to_owned() }
    }
}

/// One invocation of an interpreter on an image with a script.
pub struct ExecutionStep {
    pub executable: String,
    pub image: String,
    pub script: String,
    pub quit: bool,
    pub interactive: bool,
}

/// A command line: the words separated by single spaces.
pub open spec fn spaced(words: Seq<Seq<char>>) -> Seq<char>
    decreases words.len(),
{
    if words.len() == 0 {
        Seq::empty()
    } else if words.len() == 1 {
        words[0]
    } else {
        spaced(words.drop_last()) + seq![' '] + words.last()
    }
}

/// The arguments an invocation passes: the image, the script handler, the
/// script, `-quit` when asked for, and a final empty argument.
pub open spec fn step_arguments(image: Seq<char>, script: Seq<char>, quit: bool) -> Seq<Seq<char>> {
    let head = seq![image, seq!['s', 't'], script];
    if quit {
        head + seq![seq!['-', 'q', 'u', 'i', 't'], Seq::<char>::empty()]
    } else {
        head + seq![Seq::<char>::empty()]
    }
}

impl ExecutionStep {
    /// A step that quits when its script is done and does not take over the
    /// terminal.
    pub fn new(executable: &str, image: &str, script: &str) -> (r: Self)
        ensures
            r.executable@ == executable@,
            r.image@ == image@,
            r.script@ == script@,
            r.quit,
            !r.interactive,
    {
        ExecutionStep {
            executable: executable.to_owned(),
            image: image.to_owned(),
            script: script.to_owned(),
            quit: true,
            interactive: false,
        }
    }

    /// The same step, left running after its script.
    pub fn no_quit(self) -> (r: Self)
        ensures
            r == (ExecutionStep { quit: false, ..self }),
    {
        ExecutionStep { quit: false, ..self }
    }

    /// The same step, attached to the terminal.
    pub fn interactive(self) -> (r: Self)
        ensures
            r == (ExecutionStep { interactive: true, ..self }),
    {
        ExecutionStep { interactive: true, ..self }
    }

    /// The arguments to launch the executable with.
    pub fn arguments(&self) -> (r: Vec<String>)
        ensures
            r@.map_values(|s: String| s@) == step_arguments(self.image@, self.script@, self.quit),
    {
        let mut args: Vec<String> = Vec::new();
        args.push(self.image.clone());
        args.push(String::from_str("st"));
        args.push(self.script.clone());
        if self.quit {
            args.push(String::from_str("-quit"));
        }
        args.push(String::new());
        proof {
            reveal_strlit("st");
            reveal_strlit("-quit");
            assert("st"@ =~= seq!['s', 't']);
            assert("-quit"@ =~= seq!['-', 'q', 'u', 'i', 't']);
        }
        assert(args@.map_values(|s: String| s@) =~= step_arguments(self.image@, self.script@, self.quit));
        args
    }

    /// The command line this step runs, for reports.
    pub fn describe(&self) -> (r: String)
        ensures
            r@ == spaced(seq![self.executable@] + step_arguments(self.image@, self.script@, self.quit)),
    {
        let args = self.arguments();
        let ghost words = seq![self.executable@] + args@.map_values(|s: String| s@);
        let mut line = self.executable.clone();
        let mut i: usize = 0;
        proof {
            reveal_strlit(" ");
            assert(" "@ =~= seq![' ']);
            assert(words.take(1) =~= seq![self.executable@]);
        }
        while i < args.len()
            invariant
                i <= args@.len(),
                words == seq![self.executable@] + args@.map_values(|s: String| s@),
                line@ == spaced(words.take(i + 1)),
                " "@ == seq![' '],
            decreases args@.len() - i,
        {
            line.append(" ");
            line.append(args[i].as_str());
            assert(words.take(i + 2).drop_last() =~= words.take(i + 1));
            assert(words.take(i + 2).last() == args@[i as int]@);
            i = i + 1;
        }
        assert(words.take(args@.len() + 1int) =~= words);
        line
    }

    /// Decides a finished invocation from its exit code (`None` when the
    /// process could not be started or was killed by a signal): only exit
    /// code 0 is success; anything else is `CommandExecutionFailed`, carrying
    /// the command line.
    pub fn finished(&self, exit_code: Option<i32>) -> (r: Result<(), InstallerError>)
        ensures
            exit_code == Some(0i32) <==> r is Ok,
            r matches Err(InstallerError::CommandExecutionFailed(c)) ==> c@ == spaced(
                seq![self.executable@] + step_arguments(self.image@, self.script@, self.quit),
            ),
            r is Err ==> r matches Err(InstallerError::CommandExecutionFailed(_)),
    {
        match exit_code {
            Some(0) => Ok(()),
            _ => Err(InstallerError::CommandExecutionFailed(self.describe())),
        }
    }
}

} // verus!
