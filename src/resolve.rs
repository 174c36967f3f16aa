use vstd::prelude::*;
use crate::config::{TaskConfig, TaskConfigView, blank_config};
use crate::language::{language_named, parse_language};

verus! {

/// A file named on the command line, after the caller has looked it up on
/// disk: its absolute path, or the name as given where it does not exist.
#[derive(Debug, PartialEq, Eq)]
pub enum PathArg {
    Found(String),
    NotFound(String),
}

/// What one `submit` invocation was given explicitly.
#[derive(Debug, PartialEq, Eq)]
pub struct SubmitArgs {
    pub task_id: Option<String>,
    pub file: Option<PathArg>,
    pub language: Option<String>,
    pub rename: Option<String>,
    pub zip: bool,
    pub save: bool,
    pub no_save: bool,
}

/// A field that must come from the command line or from the saved defaults.
#[derive(Clone, Copy, Debug, PartialEq, Eq, Structural)]
pub enum Field {
    TaskId,
    File,
    Language,
}

impl Field {
    /// The option's name, as the user types it.
    pub fn name(&self) -> (r: String)
        ensures
            r@ == self.spec_name(),
    {
        match self {
            Field::TaskId => String::from_str("task_id"),
            Field::File => String::from_str("file"),
            Field::Language => String::from_str("language"),
        }
    }

    pub open spec fn spec_name(&self) -> Seq<char> {
        match self {
            Field::TaskId => "task_id"@,
            Field::File => "file"@,
            Field::Language => "language"@,
        }
    }
}

/// The message that asks the user for a missing field.
pub open spec fn guidance_text(field: Field) -> Seq<char> {
    "Please provide "@ + field.spec_name() + ". Type 'baca submit -h' for more info."@
}

/// Tells the user how to supply a field that is neither given nor saved.
pub fn guidance(field: Field) -> (r: String)
    ensures
        r@ == guidance_text(field),
{
    let name = field.name();
    String::from_str("Please provide ").concat(name.as_str()).concat(". Type 'baca submit -h' for more info.")
}

/// An input that stops resolution before any request is made.
#[derive(Debug, PartialEq, Eq)]
pub enum ResolveError {
    FileNotFound(String),
    UnknownLanguage(String),
}

/// The outcome of resolution that is not an error.
#[derive(Debug, PartialEq, Eq)]
pub enum Resolution {
    /// A required field is neither given nor saved: the user is told to give it.
    MissingField(Field),
    /// The merged configuration, and whether it differs from what was saved.
    Ready(TaskConfig, bool),
}

/// Whether the merged configuration is to be saved.
#[derive(Clone, Copy, Debug, PartialEq, Eq, Structural)]
pub enum SavePolicy {
    Save,
    Skip,
    Ask,
}

/// The first required field that is neither given nor saved.
pub open spec fn missing_field(args: &SubmitArgs, has_saved: bool) -> Option<Field> {
    if has_saved {
        None
    } else if args.task_id.is_none() {
        Some(Field::TaskId)
    } else if args.file.is_none() {
        Some(Field::File)
    } else if args.language.is_none() {
        Some(Field::Language)
    } else {
        None
    }
}

pub open spec fn file_not_found(args: &SubmitArgs) -> bool {
    args.file matches Some(PathArg::NotFound(_))
}

pub open spec fn language_unknown(args: &SubmitArgs) -> bool {
    match args.language {
        Some(l) => language_named(l@).is_none(),
        None => false,
    }
}

/// Where resolution starts: the saved configuration, or the blank one.
pub open spec fn base_config(saved: Option<TaskConfig>) -> TaskConfigView {
    match saved {
        Some(c) => c@,
        None => blank_config(),
    }
}

/// Each field given explicitly overrides the saved one; the zip flag is the
/// disjunction of both.
pub open spec fn merged(args: &SubmitArgs, saved: Option<TaskConfig>) -> TaskConfigView {
    let base = base_config(saved);
    TaskConfigView {
        id: match args.task_id {
            Some(s) => s@,
            None => base.id,
        },
        file: match args.file {
            Some(PathArg::Found(p)) => p@,
            _ => base.file,
        },
        language: match args.language {
            Some(l) => match language_named(l@) {
                Some(lang) => lang,
                None => base.language,
            },
            None => base.language,
        },
        to_zip: args.zip || base.to_zip,
        rename_as: match args.rename {
            Some(s) => Some(s@),
            None => base.rename_as,
        },
    }
}

/// Whether the merged configuration may differ from the saved one.
pub open spec fn is_dirty(args: &SubmitArgs, has_saved: bool) -> bool {
    !has_saved || args.task_id.is_some() || args.file.is_some() || args.language.is_some()
        || args.rename.is_some() || args.zip
}

pub open spec fn policy_of(save: bool, no_save: bool, dirty: bool) -> SavePolicy {
    if save {
        SavePolicy::Save
    } else if no_save || !dirty {
        SavePolicy::Skip
    } else {
        SavePolicy::Ask
    }
}

pub open spec fn persists(policy: SavePolicy, confirmed: bool) -> bool {
    match policy {
        SavePolicy::Save => true,
        SavePolicy::Skip => false,
        SavePolicy::Ask => confirmed,
    }
}

/// Merges the explicit arguments of one invocation with the saved defaults.
pub fn resolve(args: &SubmitArgs, saved: Option<TaskConfig>) -> (r: Result<Resolution, ResolveError>)
    ensures
        missing_field(args, saved.is_some()) matches Some(f) ==> r matches Ok(Resolution::MissingField(g)) && g == f,
        missing_field(args, saved.is_some()).is_none() && file_not_found(args) ==>
            (r matches Err(ResolveError::FileNotFound(p)) && args.file == Some(PathArg::NotFound(p))),
        missing_field(args, saved.is_some()).is_none() && !file_not_found(args) && language_unknown(args) ==>
            (r matches Err(ResolveError::UnknownLanguage(l)) && args.language == Some(l)),
        missing_field(args, saved.is_some()).is_none() && !file_not_found(args) && !language_unknown(args) ==>
            (r matches Ok(Resolution::Ready(c, dirty)) && c@ == merged(args, saved)
                && dirty == is_dirty(args, saved.is_some())),
{
    let has_saved = saved.is_some();
    if args.task_id.is_none() && !has_saved {
        return Ok(Resolution::MissingField(Field::TaskId));
    }
    if args.file.is_none() && !has_saved {
        return Ok(Resolution::MissingField(Field::File));
    }
    if args.language.is_none() && !has_saved {
        return Ok(Resolution::MissingField(Field::Language));
    }
    let mut dirty = !has_saved;
    let mut config = match saved {
        Some(c) => c,
        None => TaskConfig::default(),
    };
    if let Some(id) = &args.task_id {
        config.id = id.clone();
        dirty = true;
    }
    if let Some(file) = &args.file {
        match file {
            PathArg::Found(p) => {
                config.file = p.clone();
            },
            PathArg::NotFound(p) => {
                return Err(ResolveError::FileNotFound(p.clone()));
            },
        }
        dirty = true;
    }
    if let Some(l) = &args.language {
        match parse_language(l.as_str()) {
            Some(lang) => {
                config.language = lang;
            },
            None => {
                return Err(ResolveError::UnknownLanguage(l.clone()));
            },
        }
        dirty = true;
    }
    if let Some(name) = &args.rename {
        config.rename_as = Some(name.clone());
        dirty = true;
    }
    config.to_zip = config.to_zip || args.zip;
    dirty = dirty || args.zip;
    Ok(Resolution::Ready(config, dirty))
}

/// Decides whether to save: `--save` saves without asking, `--no_save` never
/// saves, and otherwise the user is asked only where something changed.
pub fn save_policy(save: bool, no_save: bool, dirty: bool) -> (r: SavePolicy)
    ensures
        r == policy_of(save, no_save, dirty),
{
    if save {
        SavePolicy::Save
    } else if no_save || !dirty {
        SavePolicy::Skip
    } else {
        SavePolicy::Ask
    }
}

/// Whether the configuration is saved, given the user's answer where one was asked for.
pub fn should_persist(policy: SavePolicy, confirmed: bool) -> (r: bool)
    ensures
        r == persists(policy, confirmed),
{
    match policy {
        SavePolicy::Save => true,
        SavePolicy::Skip => false,
        SavePolicy::Ask => confirmed,
    }
}

/// A value given on the command line always wins over the saved one, and
/// where a required field is neither given nor saved the user is asked for
/// it instead of anything failing.
pub proof fn explicit_values_win(args: &SubmitArgs, saved: Option<TaskConfig>)
    ensures
        args.task_id matches Some(id) ==> merged(args, saved).id == id@,
        args.file matches Some(PathArg::Found(p)) ==> merged(args, saved).file == p@,
        args.language matches Some(l) ==> (language_named(l@) matches Some(lang)
            ==> merged(args, saved).language == lang),
        args.rename matches Some(n) ==> merged(args, saved).rename_as == Some(n@),
        args.zip ==> merged(args, saved).to_zip,
        saved.is_none() && (args.task_id.is_none() || args.file.is_none() || args.language.is_none())
            ==> missing_field(args, false).is_some(),
        saved.is_some() ==> missing_field(args, true).is_none(),
{
}

/// The zip flag is the disjunction of the given and the saved one: once set,
/// resolution never clears it.
pub proof fn zip_is_sticky(args: &SubmitArgs, saved: Option<TaskConfig>)
    ensures
        merged(args, saved).to_zip == (args.zip || (saved matches Some(c) && c.to_zip)),
        (saved matches Some(c) && c.to_zip) ==> merged(args, saved).to_zip,
{
}

/// `--save` saves without asking; `--no_save` never saves, whatever changed;
/// with neither, a changed configuration is saved exactly when the user
/// confirms, and an unchanged one is not saved.
pub proof fn persistence_gating(save: bool, no_save: bool, dirty: bool, confirmed: bool)
    ensures
        save ==> policy_of(save, no_save, dirty) == SavePolicy::Save && persists(policy_of(save, no_save, dirty), confirmed),
        !save && no_save ==> !persists(policy_of(save, no_save, dirty), confirmed),
        !save && !no_save && dirty ==> policy_of(save, no_save, dirty) == SavePolicy::Ask
            && persists(policy_of(save, no_save, dirty), confirmed) == confirmed,
        !save && !no_save && !dirty ==> !persists(policy_of(save, no_save, dirty), confirmed),
{
}

} // verus!
