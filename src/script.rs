use vstd::prelude::*;

verus! {

/// A stored automation script. `id` and `created_at` never change after creation.
#[derive(Debug, Clone)]
pub struct Script {
    pub id: String,
    pub name: String,
    pub description: String,
    pub code: String,
    pub enabled: bool,
    pub created_at: String,
    pub updated_at: String,
}

/// The mathematical value of a script: its fields as character sequences.
pub struct ScriptView {
    pub id: Seq<char>,
    pub name: Seq<char>,
    pub description: Seq<char>,
    pub code: Seq<char>,
    pub enabled: bool,
    pub created_at: Seq<char>,
    pub updated_at: Seq<char>,
}

impl View for Script {
    type V = ScriptView;

    open spec fn view(&self) -> ScriptView {
        ScriptView {
            id: self.id@,
            name: self.name@,
            description: self.description@,
            code: self.code@,
            enabled: self.enabled,
            created_at: self.created_at@,
            updated_at: self.updated_at@,
        }
    }
}

impl Script {
    /// A field-by-field copy.
    pub fn duplicate(&self) -> (r: Script)
        ensures
            r@ == self@,
    {
        Script {
            id: self.id.clone(),
            name: self.name.clone(),
            description: self.description.clone(),
            code: self.code.clone(),
            enabled: self.enabled,
            created_at: self.created_at.clone(),
            updated_at: self.updated_at.clone(),
        }
    }
}

/// One diagnostic record captured while a script runs.
#[derive(Debug, Clone)]
pub struct ScriptLogEntry {
    pub timestamp: String,
    pub level: String,
    pub message: String,
}

pub struct LogEntryView {
    pub timestamp: Seq<char>,
    pub level: Seq<char>,
    pub message: Seq<char>,
}

impl View for ScriptLogEntry {
    type V = LogEntryView;

    open spec fn view(&self) -> LogEntryView {
        LogEntryView { timestamp: self.timestamp@, level: self.level@, message: self.message@ }
    }
}

/// What one run hands back: the diagnostics in emission order, the failure if
/// any, the elapsed wall-clock time and the interpreter's memory in use.
#[derive(Debug, Clone)]
pub struct ScriptOutput {
    pub logs: Vec<ScriptLogEntry>,
    pub error: Option<String>,
    pub duration_ms: u64,
    pub memory_used: usize,
}

/// The views of a sequence of scripts.
pub open spec fn script_views(v: Seq<Script>) -> Seq<ScriptView> {
    v.map_values(|s: Script| s@)
}

/// The views of a sequence of log entries.
pub open spec fn entry_views(v: Seq<ScriptLogEntry>) -> Seq<LogEntryView> {
    v.map_values(|e: ScriptLogEntry| e@)
}

} // verus!
