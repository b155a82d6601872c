use vstd::prelude::*;

verus! {

/// The formatting class of a screenplay line.
#[derive(Debug, Clone, Copy, PartialEq, Eq, Structural)]
pub enum ScreenplayFormatId {
    SceneHeader1,
    SceneHeader2,
    SceneHeaderLocation,
    Action,
    Character,
    Parenthetical,
    Dialogue,
    Transition,
    Basmala,
    Unknown,
}

/// One line of dialogue, attributed to a character.
#[derive(Debug, Clone)]
pub struct DialogueLine {
    pub id: String,
    pub character_id: String,
    pub text: String,
    pub scene_number: u32,
    pub page_number: u32,
    pub is_edited: bool,
}

/// The kind of problem a check found.
#[derive(Debug, Clone, Copy, PartialEq, Eq, Structural)]
pub enum ErrorCheckType {
    Format,
    Consistency,
}

/// How serious a found problem is.
#[derive(Debug, Clone, Copy, PartialEq, Eq, Structural)]
pub enum ErrorSeverity {
    Error,
    Warning,
}

/// A position in a script.
#[derive(Debug, Clone, Copy, PartialEq, Eq, Structural)]
pub struct Location {
    pub line: u32,
    pub column: u32,
}

/// A problem found in a script, with where it is and how it might be fixed.
#[derive(Debug, Clone)]
pub struct ErrorCheck {
    pub id: String,
    pub error_type: ErrorCheckType,
    pub severity: ErrorSeverity,
    pub description: String,
    pub location: Location,
    pub suggestion: Option<String>,
}

/// An act: a titled span of lines holding scenes.
#[derive(Debug, Clone)]
pub struct Act {
    pub id: String,
    pub title: String,
    pub scenes: Vec<Scene>,
    pub start_line: u32,
    pub end_line: u32,
}

/// A scene: a numbered span of lines with its place, setting and characters.
#[derive(Debug, Clone)]
pub struct Scene {
    pub id: String,
    pub number: u32,
    pub title: String,
    pub location: String,
    pub setting: String,
    pub start_line: u32,
    pub end_line: u32,
    pub characters: Vec<String>,
}

/// The number and heading text of a scene header.
#[derive(Debug, Clone)]
pub struct SceneData {
    pub scene_number: String,
    pub scene_info: String,
}

/// A script line with its formatting class.
#[derive(Debug, Clone)]
pub struct ClassifiedLine {
    pub line: String,
    pub format: ScreenplayFormatId,
    pub scene_data: Option<SceneData>,
}

} // verus!
