use vstd::prelude::*;
use crate::config::TaskConfig;
use crate::language::Language;
use crate::path::{base_name, file_name};
use crate::task::{Task, find_task, listed_id, listed_name, parse_tasks, string_table, task_count};

verus! {

/// Where a submission stands.
#[derive(Clone, Copy, Debug, PartialEq, Eq, Structural)]
pub enum Phase {
    LoadInstance,
    FetchTasks,
    CopyFile,
    Announce,
    ZipFile,
    SubmitFile,
    ShowResult,
    Finished,
}

/// What the caller reports back after doing what it was asked.
#[derive(Debug, PartialEq, Eq)]
pub enum Event {
    InstanceLoaded,
    /// The judge's task listing, as it came.
    TasksFetched(String),
    /// The path of the copy that was made.
    FileCopied(String),
    Announced,
    /// The path of the archive that was made.
    FileZipped(String),
    Submitted,
    ResultShown,
    /// The requested work failed, for the reason given.
    Failed(String),
}

/// Why a submission ended without success.
#[derive(Debug, PartialEq, Eq)]
pub enum SubmitError {
    /// The judge lists no task with this id.
    TaskNotFound(String),
    /// Work that the caller did failed, for the reason given.
    Failed(String),
    /// An event came that the current step does not wait for.
    OutOfOrder,
}

/// What the caller is to do next.
#[derive(Debug, PartialEq, Eq)]
pub enum Action {
    /// Read the judge instance that the workspace is set up for.
    LoadInstance,
    /// Fetch the judge's task listing for that instance.
    FetchTasks,
    /// Copy the file at the first path, leaving it as it is, to a scratch
    /// directory under the name given second.
    CopyFile(String, String),
    /// Tell the user what is submitted (the file's label), to which problem,
    /// in which language.
    Announce(String, String, Language),
    /// Archive the file at this path.
    ZipFile(String),
    /// Submit the file at this path against the task.
    Submit(Task, String),
    /// Show the newest result of the judge.
    ShowLatestResult,
    /// Stop, with the outcome of the submission.
    Finish(Result<(), SubmitError>),
}

/// The state of one submission of a resolved configuration.
#[derive(Debug, PartialEq, Eq)]
pub struct Submission {
    pub phase: Phase,
    pub config: TaskConfig,
    /// The matched task, with the configured language.
    pub task: Option<Task>,
    /// The name of the file as the user gave it.
    pub original_name: String,
    /// How the submitted file is named to the user.
    pub label: String,
}

/// Whether the configuration asks for the file under a name other than its own.
pub open spec fn renames(config: TaskConfig) -> bool {
    match config.rename_as {
        Some(n) => n@ != base_name(config.file@),
        None => false,
    }
}

/// Whether the listing's string table lists a task with this id.
pub open spec fn lists(table: Seq<Seq<char>>, id: Seq<char>) -> bool {
    exists|k: int| 0 <= k < task_count(table) && #[trigger] listed_id(table, k) == id
}

/// The event that each phase waits for, failures aside.
pub open spec fn awaits(phase: Phase, event: Event) -> bool {
    match phase {
        Phase::LoadInstance => event matches Event::InstanceLoaded,
        Phase::FetchTasks => event matches Event::TasksFetched(_),
        Phase::CopyFile => event matches Event::FileCopied(_),
        Phase::Announce => event matches Event::Announced,
        Phase::ZipFile => event matches Event::FileZipped(_),
        Phase::SubmitFile => event matches Event::Submitted,
        Phase::ShowResult => event matches Event::ResultShown,
        Phase::Finished => false,
    }
}

impl Submission {
    /// A task has been matched in every phase that follows the lookup.
    pub open spec fn wf(&self) -> bool {
        match self.phase {
            Phase::CopyFile | Phase::Announce | Phase::ZipFile | Phase::SubmitFile => self.task.is_some(),
            _ => true,
        }
    }

    /// Starts the submission of a resolved configuration.
    pub fn start(config: TaskConfig) -> (r: (Submission, Action))
        ensures
            r.0.wf(),
            r.0.phase == Phase::LoadInstance,
            r.0.config == config,
            r.0.task.is_none(),
            r.1 == Action::LoadInstance,
    {
        let s = Submission {
            phase: Phase::LoadInstance,
            config,
            task: None,
            original_name: String::new(),
            label: String::new(),
        };
        (s, Action::LoadInstance)
    }

    /// Takes in what the caller reports and says what to do next.
    pub fn advance(&mut self, event: Event) -> (r: Action)
        requires
            old(self).wf(),
        ensures
            final(self).wf(),
            old(self).phase == Phase::Finished ==> {
                &&& final(self).phase == Phase::Finished
                &&& r == Action::Finish(Err(SubmitError::OutOfOrder))
            },
            event matches Event::Failed(m) ==> (old(self).phase != Phase::Finished ==> {
                &&& final(self).phase == Phase::Finished
                &&& r == Action::Finish(Err(SubmitError::Failed(m)))
            }),
            !(event is Failed) && !awaits(old(self).phase, event) ==> {
                &&& final(self).phase == Phase::Finished
                &&& r == Action::Finish(Err(SubmitError::OutOfOrder))
            },
            old(self).phase == Phase::LoadInstance && (event is InstanceLoaded) ==> {
                &&& final(self).phase == Phase::FetchTasks
                &&& final(self).config == old(self).config
                &&& r == Action::FetchTasks
            },
            event matches Event::TasksFetched(raw) ==> (old(self).phase == Phase::FetchTasks
                && !lists(string_table(raw@), old(self).config.id@) ==> {
                &&& final(self).phase == Phase::Finished
                &&& r == Action::Finish(Err(SubmitError::TaskNotFound(old(self).config.id)))
            }),
            event matches Event::TasksFetched(raw) ==> (old(self).phase == Phase::FetchTasks
                && lists(string_table(raw@), old(self).config.id@) ==> {
                &&& final(self).config == old(self).config
                &&& final(self).original_name@ == base_name(old(self).config.file@)
                &&& final(self).task matches Some(t)
                &&& t.id@ == old(self).config.id@
                &&& t.language == old(self).config.language
                &&& exists|k: int| {
                    &&& 0 <= k < task_count(string_table(raw@))
                    &&& #[trigger] listed_id(string_table(raw@), k) == t.id@
                    &&& listed_name(string_table(raw@), k) == t.problem_name@
                    &&& forall|j: int| 0 <= j < k ==> #[trigger] listed_id(string_table(raw@), j) != t.id@
                }
                &&& renames(old(self).config) ==> {
                    &&& final(self).phase == Phase::CopyFile
                    &&& r == Action::CopyFile(old(self).config.file, old(self).config.rename_as.unwrap())
                }
                &&& !renames(old(self).config) ==> {
                    &&& final(self).phase == Phase::Announce
                    &&& final(self).label@ == base_name(old(self).config.file@)
                    &&& r == Action::Announce(final(self).label, t.problem_name, t.language)
                }
            }),
            event matches Event::FileCopied(p) ==> (old(self).phase == Phase::CopyFile ==> {
                &&& final(self).phase == Phase::Announce
                &&& final(self).config.file == p
                &&& final(self).config.id == old(self).config.id
                &&& final(self).config.to_zip == old(self).config.to_zip
                &&& final(self).config.language == old(self).config.language
                &&& final(self).task == old(self).task
                &&& final(self).label@ == old(self).original_name@ + " as "@ + base_name(p@)
                &&& r == Action::Announce(final(self).label, old(self).task.unwrap().problem_name,
                    old(self).task.unwrap().language)
            }),
            old(self).phase == Phase::Announce && (event is Announced) ==> {
                &&& final(self).config == old(self).config
                &&& final(self).task == old(self).task
                &&& old(self).config.to_zip ==> final(self).phase == Phase::ZipFile
                    && r == Action::ZipFile(old(self).config.file)
                &&& !old(self).config.to_zip ==> final(self).phase == Phase::SubmitFile
                    && r == Action::Submit(old(self).task.unwrap(), old(self).config.file)
            },
            event matches Event::FileZipped(p) ==> (old(self).phase == Phase::ZipFile ==> {
                &&& final(self).phase == Phase::SubmitFile
                &&& final(self).config.file == p
                &&& final(self).task == old(self).task
                &&& r == Action::Submit(old(self).task.unwrap(), p)
            }),
            old(self).phase == Phase::SubmitFile && (event is Submitted) ==> {
                &&& final(self).phase == Phase::ShowResult
                &&& r == Action::ShowLatestResult
            },
            old(self).phase == Phase::ShowResult && (event is ResultShown) ==> {
                &&& final(self).phase == Phase::Finished
                &&& r == Action::Finish(Ok(()))
            },
    {
        if self.phase == Phase::Finished {
            return Action::Finish(Err(SubmitError::OutOfOrder));
        }
        match event {
            Event::Failed(m) => {
                self.phase = Phase::Finished;
                Action::Finish(Err(SubmitError::Failed(m)))
            },
            Event::InstanceLoaded => {
                if self.phase != Phase::LoadInstance {
                    self.phase = Phase::Finished;
                    return Action::Finish(Err(SubmitError::OutOfOrder));
                }
                self.phase = Phase::FetchTasks;
                Action::FetchTasks
            },
            Event::TasksFetched(raw) => {
                if self.phase != Phase::FetchTasks {
                    self.phase = Phase::Finished;
                    return Action::Finish(Err(SubmitError::OutOfOrder));
                }
                self.on_listing(&raw)
            },
            Event::FileCopied(p) => {
                if self.phase != Phase::CopyFile {
                    self.phase = Phase::Finished;
                    return Action::Finish(Err(SubmitError::OutOfOrder));
                }
                let name = file_name(p.as_str());
                let label = self.original_name.clone().concat(" as ").concat(name.as_str());
                self.config.file = p;
                self.label = label.clone();
                self.phase = Phase::Announce;
                let t = self.task.as_ref().unwrap();
                Action::Announce(label, t.problem_name.clone(), t.language)
            },
            Event::Announced => {
                if self.phase != Phase::Announce {
                    self.phase = Phase::Finished;
                    return Action::Finish(Err(SubmitError::OutOfOrder));
                }
                if self.config.to_zip {
                    self.phase = Phase::ZipFile;
                    Action::ZipFile(self.config.file.clone())
                } else {
                    self.phase = Phase::SubmitFile;
                    Action::Submit(self.task.as_ref().unwrap().duplicate(), self.config.file.clone())
                }
            },
            Event::FileZipped(p) => {
                if self.phase != Phase::ZipFile {
                    self.phase = Phase::Finished;
                    return Action::Finish(Err(SubmitError::OutOfOrder));
                }
                self.config.file = p.clone();
                self.phase = Phase::SubmitFile;
                Action::Submit(self.task.as_ref().unwrap().duplicate(), p)
            },
            Event::Submitted => {
                if self.phase != Phase::SubmitFile {
                    self.phase = Phase::Finished;
                    return Action::Finish(Err(SubmitError::OutOfOrder));
                }
                self.phase = Phase::ShowResult;
                Action::ShowLatestResult
            },
            Event::ResultShown => {
                if self.phase != Phase::ShowResult {
                    self.phase = Phase::Finished;
                    return Action::Finish(Err(SubmitError::OutOfOrder));
                }
                self.phase = Phase::Finished;
                Action::Finish(Ok(()))
            },
        }
    }

    fn on_listing(&mut self, raw: &String) -> (r: Action)
        requires
            old(self).phase == Phase::FetchTasks,
        ensures
            final(self).wf(),
            !lists(string_table(raw@), old(self).config.id@) ==> {
                &&& final(self).phase == Phase::Finished
                &&& r == Action::Finish(Err(SubmitError::TaskNotFound(old(self).config.id)))
            },
            lists(string_table(raw@), old(self).config.id@) ==> {
                &&& final(self).config == old(self).config
                &&& final(self).original_name@ == base_name(old(self).config.file@)
                &&& final(self).task matches Some(t)
                &&& t.id@ == old(self).config.id@
                &&& t.language == old(self).config.language
                &&& exists|k: int| {
                    &&& 0 <= k < task_count(string_table(raw@))
                    &&& #[trigger] listed_id(string_table(raw@), k) == t.id@
                    &&& listed_name(string_table(raw@), k) == t.problem_name@
                    &&& forall|j: int| 0 <= j < k ==> #[trigger] listed_id(string_table(raw@), j) != t.id@
                }
                &&& renames(old(self).config) ==> {
                    &&& final(self).phase == Phase::CopyFile
                    &&& r == Action::CopyFile(old(self).config.file, old(self).config.rename_as.unwrap())
                }
                &&& !renames(old(self).config) ==> {
                    &&& final(self).phase == Phase::Announce
                    &&& final(self).label@ == base_name(old(self).config.file@)
                    &&& r == Action::Announce(final(self).label, t.problem_name, t.language)
                }
            },
    {
        let ghost table = string_table(raw@);
        let tasks = parse_tasks(raw.as_str());
        let found = find_task(&tasks, &self.config.id);
        match found {
            None => {
                proof {
                    assert forall|k: int| 0 <= k < task_count(table) implies #[trigger] listed_id(table, k)
                        != self.config.id@ by {
                        assert(tasks@[k].id@ == listed_id(table, k));
                    }
                }
                self.phase = Phase::Finished;
                Action::Finish(Err(SubmitError::TaskNotFound(self.config.id.clone())))
            },
            Some(i) => {
                let mut task = tasks[i].duplicate();
                task.language = self.config.language;
                proof {
                    assert forall|j: int| 0 <= j < i implies #[trigger] listed_id(table, j) != task.id@ by {
                        assert(tasks@[j].id@ == listed_id(table, j));
                    }
                    assert(listed_id(table, i as int) == task.id@);
                }
                let original = file_name(self.config.file.as_str());
                self.original_name = original.clone();
                let copy_as = match &self.config.rename_as {
                    Some(n) => if *n == original {
                        None
                    } else {
                        Some(n.clone())
                    },
                    None => None,
                };
                let problem = task.problem_name.clone();
                let language = task.language;
                self.task = Some(task);
                match copy_as {
                    Some(n) => {
                        self.phase = Phase::CopyFile;
                        Action::CopyFile(self.config.file.clone(), n)
                    },
                    None => {
                        self.label = original.clone();
                        self.phase = Phase::Announce;
                        Action::Announce(original, problem, language)
                    },
                }
            },
        }
    }
}

} // verus!
