//! The configuration of a project.

use vstd::prelude::*;
use crate::error::{WtError, WtErrorModel};
use crate::models::yaml::{YamlKind, key, key_in, yaml_error, yaml_fault, yaml_kind, yaml_kind_at, yaml_list, yaml_list_at, yaml_text, yaml_text_at};
use crate::text::{copy_opt_text, copy_texts, opt_text, texts};

verus! {

/// What is left out of extracted logs, as plain sequences.
pub struct LogsConfigModel {
    pub exclude_types: Seq<Seq<char>>,
    pub exclude_fields: Seq<Seq<char>>,
}

/// What is left out of extracted logs: entries of some types, and some fields of all
/// entries.
#[derive(Debug)]
pub struct LogsConfig {
    pub exclude_types: Vec<String>,
    pub exclude_fields: Vec<String>,
}

impl View for LogsConfig {
    type V = LogsConfigModel;

    open spec fn view(&self) -> LogsConfigModel {
        LogsConfigModel {
            exclude_types: texts(self.exclude_types@),
            exclude_fields: texts(self.exclude_fields@),
        }
    }
}

/// The configuration, as plain sequences.
pub struct WtConfigModel {
    pub claude_command: Seq<char>,
    pub start_args: Seq<char>,
    pub tmux_session: Seq<char>,
    pub worktree_dir: Seq<char>,
    pub copy_files: Seq<Seq<char>>,
    pub init_script: Option<Seq<char>>,
    pub archive_script: Option<Seq<char>>,
    pub logs: LogsConfigModel,
}

/// The configuration of a project.
#[derive(Debug)]
pub struct WtConfig {
    pub claude_command: String,
    pub start_args: String,
    pub tmux_session: String,
    pub worktree_dir: String,
    pub copy_files: Vec<String>,
    pub init_script: Option<String>,
    pub archive_script: Option<String>,
    pub logs: LogsConfig,
}

impl View for WtConfig {
    type V = WtConfigModel;

    open spec fn view(&self) -> WtConfigModel {
        WtConfigModel {
            claude_command: self.claude_command@,
            start_args: self.start_args@,
            tmux_session: self.tmux_session@,
            worktree_dir: self.worktree_dir@,
            copy_files: texts(self.copy_files@),
            init_script: opt_text(self.init_script),
            archive_script: opt_text(self.archive_script),
            logs: self.logs@,
        }
    }
}

/// The configuration that an empty file stands for.
pub open spec fn default_config() -> WtConfigModel {
    WtConfigModel {
        claude_command: "agent"@,
        start_args: "--verbose --output-format=stream-json --input-format=stream-json -p \"@.wt/tasks/${task}.md 请完成这个任务\""@,
        tmux_session: "wt"@,
        worktree_dir: ".wt/worktrees"@,
        copy_files: Seq::empty(),
        init_script: None,
        archive_script: None,
        logs: LogsConfigModel { exclude_types: Seq::empty(), exclude_fields: Seq::empty() },
    }
}

/// The command that runs the agent unless the configuration names another.
pub fn default_claude_command() -> (r: String)
    ensures
        r@ == default_config().claude_command,
{
    String::from_str("agent")
}

/// The arguments of a start unless the configuration gives others.
pub fn default_start_args() -> (r: String)
    ensures
        r@ == default_config().start_args,
{
    String::from_str(
        "--verbose --output-format=stream-json --input-format=stream-json -p \"@.wt/tasks/${task}.md 请完成这个任务\"",
    )
}

/// The tmux session unless the configuration names another.
pub fn default_tmux_session() -> (r: String)
    ensures
        r@ == default_config().tmux_session,
{
    String::from_str(crate::constants::DEFAULT_TMUX_SESSION)
}

/// The directory of the worktrees unless the configuration names another.
pub fn default_worktree_dir() -> (r: String)
    ensures
        r@ == default_config().worktree_dir,
{
    String::from_str(crate::constants::DEFAULT_WORKTREE_DIR)
}

impl Default for WtConfig {
    fn default() -> (r: Self)
        ensures
            r@ == default_config(),
    {
        let r = WtConfig {
            claude_command: default_claude_command(),
            start_args: default_start_args(),
            tmux_session: default_tmux_session(),
            worktree_dir: default_worktree_dir(),
            copy_files: Vec::new(),
            init_script: None,
            archive_script: None,
            logs: LogsConfig { exclude_types: Vec::new(), exclude_fields: Vec::new() },
        };
        assert(texts(r.copy_files@) =~= Seq::<Seq<char>>::empty());
        assert(texts(r.logs.exclude_types@) =~= Seq::<Seq<char>>::empty());
        assert(texts(r.logs.exclude_fields@) =~= Seq::<Seq<char>>::empty());
        r
    }
}

impl Clone for WtConfig {
    fn clone(&self) -> (r: Self)
        ensures
            r@ == self@,
    {
        WtConfig {
            claude_command: self.claude_command.clone(),
            start_args: self.start_args.clone(),
            tmux_session: self.tmux_session.clone(),
            worktree_dir: self.worktree_dir.clone(),
            copy_files: copy_texts(&self.copy_files),
            init_script: copy_opt_text(&self.init_script),
            archive_script: copy_opt_text(&self.archive_script),
            logs: LogsConfig {
                exclude_types: copy_texts(&self.logs.exclude_types),
                exclude_fields: copy_texts(&self.logs.exclude_fields),
            },
        }
    }
}

/// The string that the document sets at `path`: `default` where nothing stands there.
pub open spec fn text_setting(yaml: Seq<char>, path: Seq<Seq<char>>, default: Seq<char>) -> Result<
    Seq<char>,
    Seq<char>,
> {
    match yaml_text_at(yaml, path) {
        Some(t) => Ok(t),
        None => if yaml_kind_at(yaml, path) is None {
            Ok(default)
        } else {
            Err("invalid type: "@ + path.last() + " must be a string"@)
        },
    }
}

/// The string that the document may set at `path`: none where nothing, or null, stands
/// there.
pub open spec fn optional_setting(yaml: Seq<char>, path: Seq<Seq<char>>) -> Result<
    Option<Seq<char>>,
    Seq<char>,
> {
    match yaml_text_at(yaml, path) {
        Some(t) => Ok(Some(t)),
        None => if yaml_kind_at(yaml, path) is None || yaml_kind_at(yaml, path) == Some(
            YamlKind::Null,
        ) {
            Ok(None)
        } else {
            Err("invalid type: "@ + path.last() + " must be a string"@)
        },
    }
}

/// The list of strings that the document sets at `path`: empty where nothing stands
/// there.
pub open spec fn list_setting(yaml: Seq<char>, path: Seq<Seq<char>>) -> Result<
    Seq<Seq<char>>,
    Seq<char>,
> {
    match yaml_list_at(yaml, path) {
        Some(l) => Ok(l),
        None => if yaml_kind_at(yaml, path) is None {
            Ok(Seq::empty())
        } else {
            Err("invalid type: "@ + path.last() + " must be a list of strings"@)
        },
    }
}

/// The configuration that the text of a configuration file stands for, or why it stands
/// for none. The file is a YAML mapping; a key that it leaves out has its default, and
/// keys that the configuration does not know are passed over.
pub open spec fn config_of(yaml: Seq<char>) -> Result<WtConfigModel, Seq<char>> {
    let d = default_config();
    if yaml_fault(yaml) is Some {
        Err(yaml_fault(yaml)->Some_0)
    } else if yaml_kind_at(yaml, Seq::empty()) != Some(YamlKind::Mapping) {
        Err("invalid type: expected a mapping"@)
    } else if text_setting(yaml, seq!["claude_command"@], d.claude_command) is Err {
        Err(text_setting(yaml, seq!["claude_command"@], d.claude_command)->Err_0)
    } else if text_setting(yaml, seq!["start_args"@], d.start_args) is Err {
        Err(text_setting(yaml, seq!["start_args"@], d.start_args)->Err_0)
    } else if text_setting(yaml, seq!["tmux_session"@], d.tmux_session) is Err {
        Err(text_setting(yaml, seq!["tmux_session"@], d.tmux_session)->Err_0)
    } else if text_setting(yaml, seq!["worktree_dir"@], d.worktree_dir) is Err {
        Err(text_setting(yaml, seq!["worktree_dir"@], d.worktree_dir)->Err_0)
    } else if list_setting(yaml, seq!["copy_files"@]) is Err {
        Err(list_setting(yaml, seq!["copy_files"@])->Err_0)
    } else if optional_setting(yaml, seq!["init_script"@]) is Err {
        Err(optional_setting(yaml, seq!["init_script"@])->Err_0)
    } else if optional_setting(yaml, seq!["archive_script"@]) is Err {
        Err(optional_setting(yaml, seq!["archive_script"@])->Err_0)
    } else if list_setting(yaml, seq!["logs"@, "exclude_types"@]) is Err {
        Err(list_setting(yaml, seq!["logs"@, "exclude_types"@])->Err_0)
    } else if list_setting(yaml, seq!["logs"@, "exclude_fields"@]) is Err {
        Err(list_setting(yaml, seq!["logs"@, "exclude_fields"@])->Err_0)
    } else {
        Ok(
            WtConfigModel {
                claude_command: text_setting(
                    yaml,
                    seq!["claude_command"@],
                    d.claude_command,
                )->Ok_0,
                start_args: text_setting(yaml, seq!["start_args"@], d.start_args)->Ok_0,
                tmux_session: text_setting(yaml, seq!["tmux_session"@], d.tmux_session)->Ok_0,
                worktree_dir: text_setting(yaml, seq!["worktree_dir"@], d.worktree_dir)->Ok_0,
                copy_files: list_setting(yaml, seq!["copy_files"@])->Ok_0,
                init_script: optional_setting(yaml, seq!["init_script"@])->Ok_0,
                archive_script: optional_setting(yaml, seq!["archive_script"@])->Ok_0,
                logs: LogsConfigModel {
                    exclude_types: list_setting(yaml, seq!["logs"@, "exclude_types"@])->Ok_0,
                    exclude_fields: list_setting(yaml, seq!["logs"@, "exclude_fields"@])->Ok_0,
                },
            },
        )
    }
}

fn fault_at(path: &Vec<String>, what: &str) -> (r: String)
    requires
        path.len() > 0,
    ensures
        r@ == "invalid type: "@ + texts(path@).last() + what@,
{
    let mut m = String::from_str("invalid type: ");
    m.append(path[path.len() - 1].as_str());
    m.append(what);
    m
}

fn read_text(yaml: &str, path: &Vec<String>, default: String) -> (r: Result<String, String>)
    requires
        path.len() > 0,
    ensures
        match text_setting(yaml@, texts(path@), default@) {
            Ok(t) => r is Ok && r->Ok_0@ == t,
            Err(m) => r is Err && r->Err_0@ == m,
        },
{
    match yaml_text(yaml, path) {
        Some(t) => Ok(t),
        None => if yaml_kind(yaml, path).is_none() {
            Ok(default)
        } else {
            Err(fault_at(path, " must be a string"))
        },
    }
}

fn read_optional(yaml: &str, path: &Vec<String>) -> (r: Result<Option<String>, String>)
    requires
        path.len() > 0,
    ensures
        match optional_setting(yaml@, texts(path@)) {
            Ok(t) => r is Ok && opt_text(r->Ok_0) == t,
            Err(m) => r is Err && r->Err_0@ == m,
        },
{
    match yaml_text(yaml, path) {
        Some(t) => Ok(Some(t)),
        None => match yaml_kind(yaml, path) {
            None => Ok(None),
            Some(YamlKind::Null) => Ok(None),
            Some(_) => Err(fault_at(path, " must be a string")),
        },
    }
}

fn read_list(yaml: &str, path: &Vec<String>) -> (r: Result<Vec<String>, String>)
    requires
        path.len() > 0,
    ensures
        match list_setting(yaml@, texts(path@)) {
            Ok(l) => r is Ok && texts(r->Ok_0@) == l,
            Err(m) => r is Err && r->Err_0@ == m,
        },
{
    match yaml_list(yaml, path) {
        Some(l) => Ok(l),
        None => if yaml_kind(yaml, path).is_none() {
            let l: Vec<String> = Vec::new();
            assert(texts(l@) =~= Seq::<Seq<char>>::empty());
            Ok(l)
        } else {
            Err(fault_at(path, " must be a list of strings"))
        },
    }
}

impl WtConfig {
    /// The configuration of a project, from the text of its configuration file; fails with
    /// `ConfigNotFound` for a project without one.
    pub fn load(content: Option<&str>) -> (r: Result<WtConfig, WtError>)
        ensures
            match content {
                None => r is Err && r->Err_0@ == WtErrorModel::ConfigNotFound,
                Some(text) => match config_of(text@) {
                    Ok(c) => r is Ok && r->Ok_0@ == c,
                    Err(m) => r is Err && r->Err_0@ == WtErrorModel::ConfigParse(m),
                },
            },
    {
        match content {
            None => Err(WtError::ConfigNotFound),
            Some(text) => WtConfig::from_str(text),
        }
    }

    /// Reads the text of a configuration file.
    pub fn from_str(content: &str) -> (r: Result<WtConfig, WtError>)
        ensures
            match config_of(content@) {
                Ok(c) => r is Ok && r->Ok_0@ == c,
                Err(m) => r is Err && r->Err_0@ == WtErrorModel::ConfigParse(m),
            },
    {
        match yaml_error(content) {
            Some(e) => {
                return Err(WtError::ConfigParse(e));
            },
            None => {},
        }
        let root: Vec<String> = Vec::new();
        assert(texts(root@) =~= Seq::<Seq<char>>::empty());
        match yaml_kind(content, &root) {
            Some(YamlKind::Mapping) => {},
            _ => {
                return Err(
                    WtError::ConfigParse(String::from_str("invalid type: expected a mapping")),
                );
            },
        }
        let claude_command = match read_text(
            content,
            &key("claude_command"),
            default_claude_command(),
        ) {
            Ok(t) => t,
            Err(m) => {
                return Err(WtError::ConfigParse(m));
            },
        };
        let start_args = match read_text(content, &key("start_args"), default_start_args()) {
            Ok(t) => t,
            Err(m) => {
                return Err(WtError::ConfigParse(m));
            },
        };
        let tmux_session = match read_text(content, &key("tmux_session"), default_tmux_session()) {
            Ok(t) => t,
            Err(m) => {
                return Err(WtError::ConfigParse(m));
            },
        };
        let worktree_dir = match read_text(content, &key("worktree_dir"), default_worktree_dir()) {
            Ok(t) => t,
            Err(m) => {
                return Err(WtError::ConfigParse(m));
            },
        };
        let copy_files = match read_list(content, &key("copy_files")) {
            Ok(t) => t,
            Err(m) => {
                return Err(WtError::ConfigParse(m));
            },
        };
        let init_script = match read_optional(content, &key("init_script")) {
            Ok(t) => t,
            Err(m) => {
                return Err(WtError::ConfigParse(m));
            },
        };
        let archive_script = match read_optional(content, &key("archive_script")) {
            Ok(t) => t,
            Err(m) => {
                return Err(WtError::ConfigParse(m));
            },
        };
        let exclude_types = match read_list(content, &key_in("logs", "exclude_types")) {
            Ok(t) => t,
            Err(m) => {
                return Err(WtError::ConfigParse(m));
            },
        };
        let exclude_fields = match read_list(content, &key_in("logs", "exclude_fields")) {
            Ok(t) => t,
            Err(m) => {
                return Err(WtError::ConfigParse(m));
            },
        };
        Ok(
            WtConfig {
                claude_command,
                start_args,
                tmux_session,
                worktree_dir,
                copy_files,
                init_script,
                archive_script,
                logs: LogsConfig { exclude_types, exclude_fields },
            },
        )
    }
}

} // verus!
