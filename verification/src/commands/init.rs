//! Setting up a project: the first configuration file and the entries for `.gitignore`.

use vstd::prelude::*;
use crate::error::{WtError, WtErrorModel};
use crate::text::{chars_of, contains_text, has_infix};

verus! {

/// The line by which the entries for `.gitignore` are known.
pub const GITIGNORE_MARKER: &'static str = "# wt - Worktree Task Manager";

/// What `.gitignore` gets: everything under `.wt` is left out of the repository, but for
/// the task definitions and the configuration.
pub const GITIGNORE_ENTRIES: &'static str =
    "# wt - Worktree Task Manager\n.wt/*\n!.wt/tasks/\n!.wt/config.yaml\n";

/// What stands in a new configuration file before the name of the session.
pub const CONFIG_HEAD: &'static str = "# wt - Worktree Task Manager\n# https://github.com/anthropics/wt\n.wt/*\n!.wt/tasks/\n!.wt/config.yaml\n\"#;\n\nfn get_project_name() -> String {\n    env::current_dir()\n        .ok()\n        .and_then(|p| p.file_name().map(|n| n.to_string_lossy().to_string()))\n        .unwrap_or_else(|| \"wt\".to_string())\n}\n\nfn generate_config(project_name: &str) -> String {\n    format!(\n        r#\"# wt 配置文件\n# 文档: https://github.com/anthropics/wt\n\n# ============================================\n# 主要配置\n# ============================================\n\n# wt start 执行的参数\n# 支持模板变量: ${task}, ${branch}, ${worktree}\n#\n# 交互模式（默认）- 启动 REPL 带初始 prompt\nstart_args: '\"@.wt/tasks/${task}.md 请完成这个任务\"'\n#\n# 非交互模式 - 执行完自动退出，适合 CI/自动化\n# start_args: --verbose --output-format=stream-json --input-format=stream-json -p \"@.wt/tasks/${task}.md 请完成这个任务\"\n\n# ============================================\n# 可选配置\n# ============================================\n\n# Agent CLI 命令\n# 默认: agent\n# 如果你使用别名或想添加全局 flags，在这里配置\n# 示例: ccc, agent --yolo, /path/to/agent\n# claude_command: agent\n\n# tmux session 名称\n# 默认: 项目目录名\ntmux_session: ";

/// What stands in a new configuration file after the name of the session.
pub const CONFIG_TAIL: &'static str = "\n\n# Worktree 存放目录\n# 默认: .wt/worktrees\n# 支持相对路径（相对于项目根目录）和绝对路径\n# worktree_dir: .wt/worktrees\n\n# 初始化脚本 (在每个新 worktree 中执行)\n# 例如安装依赖、设置环境等\n# init_script: |\n#   npm install\n\n# 需要复制到 worktree 的文件\n# 这些文件不会被 git checkout 带过去\n# copy_files:\n#   - .env\n#   - .env.local\n\n# 归档/重置前的清理脚本\n# 用于删除大文件（node_modules 等），减少备份体积\n# archive_script: |\n#   rm -rf node_modules/\n#   rm -rf dist/\n#   rm -rf .next/\n#   rm -rf target/\n\n# ============================================\n# 日志配置 (wt logs)\n# ============================================\n\n# 过滤规则，用于 wt logs 命令生成调试日志\n# 默认不过滤，取消注释以启用\n# logs:\n#   exclude_types:\n#     - system\n#     - progress\n#     - file-history-snapshot\n#   exclude_fields:\n#     - signature\n#     - cwd\n#     - gitBranch\n#     - permissionMode\n#     - sessionId\n#     - id\n#     - model\n#     - tool_use_id\n#     - timestamp\n#     - version\n#     - usage\n#     - parentUuid\n#     - uuid\n#     - isSidechain\n#     - userType\n#     - slug\n#     - thinkingMetadata\n";

/// The text of the first configuration file of a project named `project_name`.
pub fn generate_config(project_name: &str) -> (r: String)
    ensures
        r@ == CONFIG_HEAD@ + project_name@ + CONFIG_TAIL@,
{
    let mut r = String::from_str(CONFIG_HEAD);
    r.append(project_name);
    r.append(CONFIG_TAIL);
    r
}

/// What `.gitignore` is to hold after the entries were added to `existing`; none where
/// `existing` has them already. The entries follow an empty line.
pub open spec fn gitignore_after(existing: Option<Seq<char>>) -> Option<Seq<char>> {
    match existing {
        None => Some(GITIGNORE_ENTRIES@),
        Some(e) => if has_infix(e, GITIGNORE_MARKER@) {
            None
        } else if e.len() > 0 && e.last() == '\n' {
            Some(e + "\n"@ + GITIGNORE_ENTRIES@)
        } else {
            Some(e + "\n\n"@ + GITIGNORE_ENTRIES@)
        },
    }
}

/// What `.gitignore` is to hold, given what it holds; none where nothing is to change.
pub fn update_gitignore(existing: Option<&str>) -> (r: Option<String>)
    ensures
        match gitignore_after(
            match existing {
                Some(e) => Some(e@),
                None => None,
            },
        ) {
            Some(t) => r is Some && r->Some_0@ == t,
            None => r is None,
        },
{
    match existing {
        None => Some(String::from_str(GITIGNORE_ENTRIES)),
        Some(e) => {
            let have = chars_of(e);
            let marker = chars_of(GITIGNORE_MARKER);
            if contains_text(&have, &marker) {
                None
            } else {
                let mut r = String::from_str(e);
                if have.len() > 0 && have[have.len() - 1] == '\n' {
                    r.append("\n");
                } else {
                    r.append("\n\n");
                }
                r.append(GITIGNORE_ENTRIES);
                Some(r)
            }
        },
    }
}

/// Fails where the project has a configuration file already.
pub fn check(config_exists: bool) -> (r: Result<(), WtError>)
    ensures
        !config_exists ==> r is Ok,
        config_exists ==> r is Err && r->Err_0@ == (WtErrorModel::Io {
            operation: "init"@,
            path: ".wt/config.yaml"@,
            message: "already exists. Remove it first if you want to reinitialize."@,
        }),
{
    if config_exists {
        Err(
            WtError::Io {
                operation: String::from_str("init"),
                path: String::from_str(crate::constants::CONFIG_FILE),
                message: String::from_str(
                    "already exists. Remove it first if you want to reinitialize.",
                ),
            },
        )
    } else {
        Ok(())
    }
}

/// What setting up a project writes and says, as plain sequences.
pub struct InitPlanModel {
    pub config: Seq<char>,
    pub create_tasks_dir: bool,
    pub gitignore: Option<Seq<char>>,
    pub report: Seq<char>,
    pub next_steps: Seq<char>,
}

/// What setting up a project writes and says: the text of the configuration file,
/// whether the directory of the tasks is to be made, the new text of `.gitignore` where
/// it changes, what is said of all this, and what is said at the end.
#[derive(Debug)]
pub struct InitPlan {
    pub config: String,
    pub create_tasks_dir: bool,
    pub gitignore: Option<String>,
    pub report: String,
    pub next_steps: String,
}

impl View for InitPlan {
    type V = InitPlanModel;

    open spec fn view(&self) -> InitPlanModel {
        InitPlanModel {
            config: self.config@,
            create_tasks_dir: self.create_tasks_dir,
            gitignore: crate::text::opt_text(self.gitignore),
            report: self.report@,
            next_steps: self.next_steps@,
        }
    }
}

/// What is said at the end of setting up the project `project_name`.
pub open spec fn next_steps_text(project_name: Seq<char>) -> Seq<char> {
    "\nInitialized wt for project '"@ + project_name
        + "'\n\nNext steps:\n  1. Edit .wt/config.yaml to customize settings\n  2. Create tasks: wt create --json '{\"name\": \"...\", \"description\": \"...\"}'\n  3. Start working: wt start <task>\n"@
}

/// What setting up the project `project_name` writes and says, given whether the
/// directory of the tasks is there and what `.gitignore` holds.
pub open spec fn init_plan_of(
    project_name: Seq<char>,
    tasks_dir_exists: bool,
    gitignore: Option<Seq<char>>,
) -> InitPlanModel {
    InitPlanModel {
        config: CONFIG_HEAD@ + project_name + CONFIG_TAIL@,
        create_tasks_dir: !tasks_dir_exists,
        gitignore: gitignore_after(gitignore),
        report: "Created .wt/config.yaml\n"@ + (if tasks_dir_exists {
            Seq::<char>::empty()
        } else {
            "Created .wt/tasks/\n"@
        }) + (if gitignore_after(gitignore) is Some {
            "Updated .gitignore\n"@
        } else {
            ".gitignore already has wt entries\n"@
        }),
        next_steps: next_steps_text(project_name),
    }
}

/// Lays out the setting up of the project `project_name`. Fails where the project has a
/// configuration file already.
pub fn execute(
    project_name: &str,
    config_exists: bool,
    tasks_dir_exists: bool,
    gitignore: Option<&str>,
) -> (r: Result<InitPlan, WtError>)
    ensures
        config_exists ==> r is Err && r->Err_0@ == (WtErrorModel::Io {
            operation: "init"@,
            path: ".wt/config.yaml"@,
            message: "already exists. Remove it first if you want to reinitialize."@,
        }),
        !config_exists ==> r is Ok && r->Ok_0@ == init_plan_of(
            project_name@,
            tasks_dir_exists,
            match gitignore {
                Some(g) => Some(g@),
                None => None,
            },
        ),
{
    match check(config_exists) {
        Err(e) => {
            return Err(e);
        },
        Ok(_) => {},
    }
    let mut report = String::from_str("Created .wt/config.yaml\n");
    let ghost first = report@;
    if !tasks_dir_exists {
        report.append("Created .wt/tasks/\n");
    } else {
        assert(report@ =~= first + Seq::<char>::empty());
    }
    let updated = update_gitignore(gitignore);
    if updated.is_some() {
        report.append("Updated .gitignore\n");
    } else {
        report.append(".gitignore already has wt entries\n");
    }
    let mut next_steps = String::from_str("\nInitialized wt for project '");
    next_steps.append(project_name);
    next_steps.append(
        "'\n\nNext steps:\n  1. Edit .wt/config.yaml to customize settings\n  2. Create tasks: wt create --json '{\"name\": \"...\", \"description\": \"...\"}'\n  3. Start working: wt start <task>\n",
    );
    Ok(
        InitPlan {
            config: generate_config(project_name),
            create_tasks_dir: !tasks_dir_exists,
            gitignore: updated,
            report,
            next_steps,
        },
    )
}

} // verus!
