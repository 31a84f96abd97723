use vstd::prelude::*;

verus! {

/// Every action a user can trigger from the keyboard or a menu.
#[derive(Debug, Clone, Copy, PartialEq, Eq, Hash, Structural)]
pub enum AppAction {
    PlayPause,
    Stop,
    Record,
    GoToStart,
    Rewind,
    FastForward,
    Undo,
    Redo,
    Cut,
    Copy,
    Paste,
    Delete,
    SelectAll,
    DeselectAll,
    Duplicate,
    NewProject,
    OpenProject,
    SaveProject,
    SaveProjectAs,
    ImportAudio,
    ExportAudio,
    ZoomIn,
    ZoomOut,
    ZoomToFit,
    ToggleMixer,
    TogglePianoRoll,
    ToggleTimeline,
    ToggleLoop,
    SetLoopToSelection,
    ClearLoop,
    NudgeLeft,
    NudgeRight,
    NudgeLeftFine,
    NudgeRightFine,
    NudgeLeftCoarse,
    NudgeRightCoarse,
    TransposeUp,
    TransposeDown,
    TransposeOctaveUp,
    TransposeOctaveDown,
    VelocityUp,
    VelocityDown,
    SplitAtPlayhead,
    Normalize,
    Reverse,
    FadeIn,
    FadeOut,
    QuantizeDialog,
    TransposeDialog,
    HumanizeDialog,
    Escape,
}

/// The part of the interface in which an action is valid.
#[derive(Debug, Clone, Copy, PartialEq, Eq, Hash, Structural)]
pub enum ActionContext {
    Global,
    PianoRoll,
    Timeline,
    Mixer,
    NoteSelection,
    ClipSelection,
}

/// The number of actions.
pub const ACTION_COUNT: usize = 51;

/// The position of an action in the enumeration order of [`AppAction::all`].
pub open spec fn action_index(a: AppAction) -> nat {
    match a {
        AppAction::PlayPause => 0,
        AppAction::Stop => 1,
        AppAction::Record => 2,
        AppAction::GoToStart => 3,
        AppAction::Rewind => 4,
        AppAction::FastForward => 5,
        AppAction::Undo => 6,
        AppAction::Redo => 7,
        AppAction::Cut => 8,
        AppAction::Copy => 9,
        AppAction::Paste => 10,
        AppAction::Delete => 11,
        AppAction::SelectAll => 12,
        AppAction::DeselectAll => 13,
        AppAction::Duplicate => 14,
        AppAction::NewProject => 15,
        AppAction::OpenProject => 16,
        AppAction::SaveProject => 17,
        AppAction::SaveProjectAs => 18,
        AppAction::ImportAudio => 19,
        AppAction::ExportAudio => 20,
        AppAction::ZoomIn => 21,
        AppAction::ZoomOut => 22,
        AppAction::ZoomToFit => 23,
        AppAction::ToggleMixer => 24,
        AppAction::TogglePianoRoll => 25,
        AppAction::ToggleTimeline => 26,
        AppAction::ToggleLoop => 27,
        AppAction::SetLoopToSelection => 28,
        AppAction::ClearLoop => 29,
        AppAction::NudgeLeft => 30,
        AppAction::NudgeRight => 31,
        AppAction::NudgeLeftFine => 32,
        AppAction::NudgeRightFine => 33,
        AppAction::NudgeLeftCoarse => 34,
        AppAction::NudgeRightCoarse => 35,
        AppAction::TransposeUp => 36,
        AppAction::TransposeDown => 37,
        AppAction::TransposeOctaveUp => 38,
        AppAction::TransposeOctaveDown => 39,
        AppAction::VelocityUp => 40,
        AppAction::VelocityDown => 41,
        AppAction::SplitAtPlayhead => 42,
        AppAction::Normalize => 43,
        AppAction::Reverse => 44,
        AppAction::FadeIn => 45,
        AppAction::FadeOut => 46,
        AppAction::QuantizeDialog => 47,
        AppAction::TransposeDialog => 48,
        AppAction::HumanizeDialog => 49,
        AppAction::Escape => 50,
    }
}

/// The action at a position of the enumeration order.
pub open spec fn action_at(i: nat) -> AppAction {
    if i == 0 { AppAction::PlayPause }
    else if i == 1 { AppAction::Stop }
    else if i == 2 { AppAction::Record }
    else if i == 3 { AppAction::GoToStart }
    else if i == 4 { AppAction::Rewind }
    else if i == 5 { AppAction::FastForward }
    else if i == 6 { AppAction::Undo }
    else if i == 7 { AppAction::Redo }
    else if i == 8 { AppAction::Cut }
    else if i == 9 { AppAction::Copy }
    else if i == 10 { AppAction::Paste }
    else if i == 11 { AppAction::Delete }
    else if i == 12 { AppAction::SelectAll }
    else if i == 13 { AppAction::DeselectAll }
    else if i == 14 { AppAction::Duplicate }
    else if i == 15 { AppAction::NewProject }
    else if i == 16 { AppAction::OpenProject }
    else if i == 17 { AppAction::SaveProject }
    else if i == 18 { AppAction::SaveProjectAs }
    else if i == 19 { AppAction::ImportAudio }
    else if i == 20 { AppAction::ExportAudio }
    else if i == 21 { AppAction::ZoomIn }
    else if i == 22 { AppAction::ZoomOut }
    else if i == 23 { AppAction::ZoomToFit }
    else if i == 24 { AppAction::ToggleMixer }
    else if i == 25 { AppAction::TogglePianoRoll }
    else if i == 26 { AppAction::ToggleTimeline }
    else if i == 27 { AppAction::ToggleLoop }
    else if i == 28 { AppAction::SetLoopToSelection }
    else if i == 29 { AppAction::ClearLoop }
    else if i == 30 { AppAction::NudgeLeft }
    else if i == 31 { AppAction::NudgeRight }
    else if i == 32 { AppAction::NudgeLeftFine }
    else if i == 33 { AppAction::NudgeRightFine }
    else if i == 34 { AppAction::NudgeLeftCoarse }
    else if i == 35 { AppAction::NudgeRightCoarse }
    else if i == 36 { AppAction::TransposeUp }
    else if i == 37 { AppAction::TransposeDown }
    else if i == 38 { AppAction::TransposeOctaveUp }
    else if i == 39 { AppAction::TransposeOctaveDown }
    else if i == 40 { AppAction::VelocityUp }
    else if i == 41 { AppAction::VelocityDown }
    else if i == 42 { AppAction::SplitAtPlayhead }
    else if i == 43 { AppAction::Normalize }
    else if i == 44 { AppAction::Reverse }
    else if i == 45 { AppAction::FadeIn }
    else if i == 46 { AppAction::FadeOut }
    else if i == 47 { AppAction::QuantizeDialog }
    else if i == 48 { AppAction::TransposeDialog }
    else if i == 49 { AppAction::HumanizeDialog }
    else { AppAction::Escape }
}

/// Every action in enumeration order.
pub open spec fn all_actions() -> Seq<AppAction> {
    seq![AppAction::PlayPause, AppAction::Stop, AppAction::Record, AppAction::GoToStart, AppAction::Rewind, AppAction::FastForward, AppAction::Undo, AppAction::Redo, AppAction::Cut, AppAction::Copy, AppAction::Paste, AppAction::Delete, AppAction::SelectAll, AppAction::DeselectAll, AppAction::Duplicate, AppAction::NewProject, AppAction::OpenProject, AppAction::SaveProject, AppAction::SaveProjectAs, AppAction::ImportAudio, AppAction::ExportAudio, AppAction::ZoomIn, AppAction::ZoomOut, AppAction::ZoomToFit, AppAction::ToggleMixer, AppAction::TogglePianoRoll, AppAction::ToggleTimeline, AppAction::ToggleLoop, AppAction::SetLoopToSelection, AppAction::ClearLoop, AppAction::NudgeLeft, AppAction::NudgeRight, AppAction::NudgeLeftFine, AppAction::NudgeRightFine, AppAction::NudgeLeftCoarse, AppAction::NudgeRightCoarse, AppAction::TransposeUp, AppAction::TransposeDown, AppAction::TransposeOctaveUp, AppAction::TransposeOctaveDown, AppAction::VelocityUp, AppAction::VelocityDown, AppAction::SplitAtPlayhead, AppAction::Normalize, AppAction::Reverse, AppAction::FadeIn, AppAction::FadeOut, AppAction::QuantizeDialog, AppAction::TransposeDialog, AppAction::HumanizeDialog, AppAction::Escape]
}

/// The display name of an action.
pub open spec fn action_name(a: AppAction) -> Seq<char> {
    match a {
        AppAction::PlayPause => "Play/Pause"@,
        AppAction::Stop => "Stop"@,
        AppAction::Record => "Record"@,
        AppAction::GoToStart => "Go to Start"@,
        AppAction::Rewind => "Rewind"@,
        AppAction::FastForward => "Fast Forward"@,
        AppAction::Undo => "Undo"@,
        AppAction::Redo => "Redo"@,
        AppAction::Cut => "Cut"@,
        AppAction::Copy => "Copy"@,
        AppAction::Paste => "Paste"@,
        AppAction::Delete => "Delete"@,
        AppAction::SelectAll => "Select All"@,
        AppAction::DeselectAll => "Deselect All"@,
        AppAction::Duplicate => "Duplicate"@,
        AppAction::NewProject => "New Project"@,
        AppAction::OpenProject => "Open Project"@,
        AppAction::SaveProject => "Save Project"@,
        AppAction::SaveProjectAs => "Save Project As"@,
        AppAction::ImportAudio => "Import Audio"@,
        AppAction::ExportAudio => "Export Audio"@,
        AppAction::ZoomIn => "Zoom In"@,
        AppAction::ZoomOut => "Zoom Out"@,
        AppAction::ZoomToFit => "Zoom to Fit"@,
        AppAction::ToggleMixer => "Toggle Mixer"@,
        AppAction::TogglePianoRoll => "Switch to Piano Roll"@,
        AppAction::ToggleTimeline => "Switch to Timeline"@,
        AppAction::ToggleLoop => "Toggle Loop"@,
        AppAction::SetLoopToSelection => "Set Loop to Selection"@,
        AppAction::ClearLoop => "Clear Loop"@,
        AppAction::NudgeLeft => "Nudge Left (Grid)"@,
        AppAction::NudgeRight => "Nudge Right (Grid)"@,
        AppAction::NudgeLeftFine => "Nudge Left (Fine)"@,
        AppAction::NudgeRightFine => "Nudge Right (Fine)"@,
        AppAction::NudgeLeftCoarse => "Nudge Left (Coarse)"@,
        AppAction::NudgeRightCoarse => "Nudge Right (Coarse)"@,
        AppAction::TransposeUp => "Transpose Up"@,
        AppAction::TransposeDown => "Transpose Down"@,
        AppAction::TransposeOctaveUp => "Transpose Octave Up"@,
        AppAction::TransposeOctaveDown => "Transpose Octave Down"@,
        AppAction::VelocityUp => "Velocity Up"@,
        AppAction::VelocityDown => "Velocity Down"@,
        AppAction::SplitAtPlayhead => "Split at Playhead"@,
        AppAction::Normalize => "Normalize"@,
        AppAction::Reverse => "Reverse"@,
        AppAction::FadeIn => "Fade In"@,
        AppAction::FadeOut => "Fade Out"@,
        AppAction::QuantizeDialog => "Quantize..."@,
        AppAction::TransposeDialog => "Transpose..."@,
        AppAction::HumanizeDialog => "Humanize..."@,
        AppAction::Escape => "Escape"@,
    }
}

/// A name's length, first character and last-but-one character.
spec fn name_key(s: Seq<char>) -> (nat, char, char) {
    (s.len(), s[0], s[s.len() - 2])
}

/// The action whose name has the given length, first character and
/// last-but-one character.
spec fn action_of_key(k: (nat, char, char)) -> Option<AppAction> {
    if k == (10nat, 'P', 's') {
        Some(AppAction::PlayPause)
    } else if k == (4nat, 'S', 'o') {
        Some(AppAction::Stop)
    } else if k == (6nat, 'R', 'r') {
        Some(AppAction::Record)
    } else if k == (11nat, 'G', 'r') {
        Some(AppAction::GoToStart)
    } else if k == (6nat, 'R', 'n') {
        Some(AppAction::Rewind)
    } else if k == (12nat, 'F', 'r') {
        Some(AppAction::FastForward)
    } else if k == (4nat, 'U', 'd') {
        Some(AppAction::Undo)
    } else if k == (4nat, 'R', 'd') {
        Some(AppAction::Redo)
    } else if k == (3nat, 'C', 'u') {
        Some(AppAction::Cut)
    } else if k == (4nat, 'C', 'p') {
        Some(AppAction::Copy)
    } else if k == (5nat, 'P', 't') {
        Some(AppAction::Paste)
    } else if k == (6nat, 'D', 't') {
        Some(AppAction::Delete)
    } else if k == (10nat, 'S', 'l') {
        Some(AppAction::SelectAll)
    } else if k == (12nat, 'D', 'l') {
        Some(AppAction::DeselectAll)
    } else if k == (9nat, 'D', 't') {
        Some(AppAction::Duplicate)
    } else if k == (11nat, 'N', 'c') {
        Some(AppAction::NewProject)
    } else if k == (12nat, 'O', 'c') {
        Some(AppAction::OpenProject)
    } else if k == (12nat, 'S', 'c') {
        Some(AppAction::SaveProject)
    } else if k == (15nat, 'S', 'A') {
        Some(AppAction::SaveProjectAs)
    } else if k == (12nat, 'I', 'i') {
        Some(AppAction::ImportAudio)
    } else if k == (12nat, 'E', 'i') {
        Some(AppAction::ExportAudio)
    } else if k == (7nat, 'Z', 'I') {
        Some(AppAction::ZoomIn)
    } else if k == (8nat, 'Z', 'u') {
        Some(AppAction::ZoomOut)
    } else if k == (11nat, 'Z', 'i') {
        Some(AppAction::ZoomToFit)
    } else if k == (12nat, 'T', 'e') {
        Some(AppAction::ToggleMixer)
    } else if k == (20nat, 'S', 'l') {
        Some(AppAction::TogglePianoRoll)
    } else if k == (18nat, 'S', 'n') {
        Some(AppAction::ToggleTimeline)
    } else if k == (11nat, 'T', 'o') {
        Some(AppAction::ToggleLoop)
    } else if k == (21nat, 'S', 'o') {
        Some(AppAction::SetLoopToSelection)
    } else if k == (10nat, 'C', 'o') {
        Some(AppAction::ClearLoop)
    } else if k == (17nat, 'N', 'd') {
        Some(AppAction::NudgeLeft)
    } else if k == (18nat, 'N', 'd') {
        Some(AppAction::NudgeRight)
    } else if k == (17nat, 'N', 'e') {
        Some(AppAction::NudgeLeftFine)
    } else if k == (18nat, 'N', 'e') {
        Some(AppAction::NudgeRightFine)
    } else if k == (19nat, 'N', 'e') {
        Some(AppAction::NudgeLeftCoarse)
    } else if k == (20nat, 'N', 'e') {
        Some(AppAction::NudgeRightCoarse)
    } else if k == (12nat, 'T', 'U') {
        Some(AppAction::TransposeUp)
    } else if k == (14nat, 'T', 'w') {
        Some(AppAction::TransposeDown)
    } else if k == (19nat, 'T', 'U') {
        Some(AppAction::TransposeOctaveUp)
    } else if k == (21nat, 'T', 'w') {
        Some(AppAction::TransposeOctaveDown)
    } else if k == (11nat, 'V', 'U') {
        Some(AppAction::VelocityUp)
    } else if k == (13nat, 'V', 'w') {
        Some(AppAction::VelocityDown)
    } else if k == (17nat, 'S', 'a') {
        Some(AppAction::SplitAtPlayhead)
    } else if k == (9nat, 'N', 'z') {
        Some(AppAction::Normalize)
    } else if k == (7nat, 'R', 's') {
        Some(AppAction::Reverse)
    } else if k == (7nat, 'F', 'I') {
        Some(AppAction::FadeIn)
    } else if k == (8nat, 'F', 'u') {
        Some(AppAction::FadeOut)
    } else if k == (11nat, 'Q', '.') {
        Some(AppAction::QuantizeDialog)
    } else if k == (12nat, 'T', '.') {
        Some(AppAction::TransposeDialog)
    } else if k == (11nat, 'H', '.') {
        Some(AppAction::HumanizeDialog)
    } else if k == (6nat, 'E', 'p') {
        Some(AppAction::Escape)
    } else {
        None
    }
}

/// An action's name has at least two characters, and its length, first
/// character and last-but-one character single the action out.
proof fn lemma_name_key(a: AppAction)
    ensures
        action_name(a).len() >= 2,
        action_of_key(name_key(action_name(a))) == Some(a),
{
    match a {
        AppAction::PlayPause => reveal_strlit("Play/Pause"),
        AppAction::Stop => reveal_strlit("Stop"),
        AppAction::Record => reveal_strlit("Record"),
        AppAction::GoToStart => reveal_strlit("Go to Start"),
        AppAction::Rewind => reveal_strlit("Rewind"),
        AppAction::FastForward => reveal_strlit("Fast Forward"),
        AppAction::Undo => reveal_strlit("Undo"),
        AppAction::Redo => reveal_strlit("Redo"),
        AppAction::Cut => reveal_strlit("Cut"),
        AppAction::Copy => reveal_strlit("Copy"),
        AppAction::Paste => reveal_strlit("Paste"),
        AppAction::Delete => reveal_strlit("Delete"),
        AppAction::SelectAll => reveal_strlit("Select All"),
        AppAction::DeselectAll => reveal_strlit("Deselect All"),
        AppAction::Duplicate => reveal_strlit("Duplicate"),
        AppAction::NewProject => reveal_strlit("New Project"),
        AppAction::OpenProject => reveal_strlit("Open Project"),
        AppAction::SaveProject => reveal_strlit("Save Project"),
        AppAction::SaveProjectAs => reveal_strlit("Save Project As"),
        AppAction::ImportAudio => reveal_strlit("Import Audio"),
        AppAction::ExportAudio => reveal_strlit("Export Audio"),
        AppAction::ZoomIn => reveal_strlit("Zoom In"),
        AppAction::ZoomOut => reveal_strlit("Zoom Out"),
        AppAction::ZoomToFit => reveal_strlit("Zoom to Fit"),
        AppAction::ToggleMixer => reveal_strlit("Toggle Mixer"),
        AppAction::TogglePianoRoll => reveal_strlit("Switch to Piano Roll"),
        AppAction::ToggleTimeline => reveal_strlit("Switch to Timeline"),
        AppAction::ToggleLoop => reveal_strlit("Toggle Loop"),
        AppAction::SetLoopToSelection => reveal_strlit("Set Loop to Selection"),
        AppAction::ClearLoop => reveal_strlit("Clear Loop"),
        AppAction::NudgeLeft => reveal_strlit("Nudge Left (Grid)"),
        AppAction::NudgeRight => reveal_strlit("Nudge Right (Grid)"),
        AppAction::NudgeLeftFine => reveal_strlit("Nudge Left (Fine)"),
        AppAction::NudgeRightFine => reveal_strlit("Nudge Right (Fine)"),
        AppAction::NudgeLeftCoarse => reveal_strlit("Nudge Left (Coarse)"),
        AppAction::NudgeRightCoarse => reveal_strlit("Nudge Right (Coarse)"),
        AppAction::TransposeUp => reveal_strlit("Transpose Up"),
        AppAction::TransposeDown => reveal_strlit("Transpose Down"),
        AppAction::TransposeOctaveUp => reveal_strlit("Transpose Octave Up"),
        AppAction::TransposeOctaveDown => reveal_strlit("Transpose Octave Down"),
        AppAction::VelocityUp => reveal_strlit("Velocity Up"),
        AppAction::VelocityDown => reveal_strlit("Velocity Down"),
        AppAction::SplitAtPlayhead => reveal_strlit("Split at Playhead"),
        AppAction::Normalize => reveal_strlit("Normalize"),
        AppAction::Reverse => reveal_strlit("Reverse"),
        AppAction::FadeIn => reveal_strlit("Fade In"),
        AppAction::FadeOut => reveal_strlit("Fade Out"),
        AppAction::QuantizeDialog => reveal_strlit("Quantize..."),
        AppAction::TransposeDialog => reveal_strlit("Transpose..."),
        AppAction::HumanizeDialog => reveal_strlit("Humanize..."),
        AppAction::Escape => reveal_strlit("Escape"),
    }
}

/// Every action has a name, and no two actions share one.
pub proof fn lemma_action_names_distinct(a: AppAction, b: AppAction)
    ensures
        action_name(a).len() > 0,
        a != b ==> action_name(a) != action_name(b),
{
    lemma_name_key(a);
    lemma_name_key(b);
}

/// The menu category of an action.
pub open spec fn action_category(a: AppAction) -> Seq<char> {
    match a {
        AppAction::PlayPause => "Transport"@,
        AppAction::Stop => "Transport"@,
        AppAction::Record => "Transport"@,
        AppAction::GoToStart => "Transport"@,
        AppAction::Rewind => "Transport"@,
        AppAction::FastForward => "Transport"@,
        AppAction::Undo => "Edit"@,
        AppAction::Redo => "Edit"@,
        AppAction::Cut => "Edit"@,
        AppAction::Copy => "Edit"@,
        AppAction::Paste => "Edit"@,
        AppAction::Delete => "Edit"@,
        AppAction::SelectAll => "Edit"@,
        AppAction::DeselectAll => "Edit"@,
        AppAction::Duplicate => "Edit"@,
        AppAction::NewProject => "File"@,
        AppAction::OpenProject => "File"@,
        AppAction::SaveProject => "File"@,
        AppAction::SaveProjectAs => "File"@,
        AppAction::ImportAudio => "File"@,
        AppAction::ExportAudio => "File"@,
        AppAction::ZoomIn => "View"@,
        AppAction::ZoomOut => "View"@,
        AppAction::ZoomToFit => "View"@,
        AppAction::ToggleMixer => "View"@,
        AppAction::TogglePianoRoll => "View"@,
        AppAction::ToggleTimeline => "View"@,
        AppAction::ToggleLoop => "Loop"@,
        AppAction::SetLoopToSelection => "Loop"@,
        AppAction::ClearLoop => "Loop"@,
        AppAction::NudgeLeft => "Piano Roll"@,
        AppAction::NudgeRight => "Piano Roll"@,
        AppAction::NudgeLeftFine => "Piano Roll"@,
        AppAction::NudgeRightFine => "Piano Roll"@,
        AppAction::NudgeLeftCoarse => "Piano Roll"@,
        AppAction::NudgeRightCoarse => "Piano Roll"@,
        AppAction::TransposeUp => "Piano Roll"@,
        AppAction::TransposeDown => "Piano Roll"@,
        AppAction::TransposeOctaveUp => "Piano Roll"@,
        AppAction::TransposeOctaveDown => "Piano Roll"@,
        AppAction::VelocityUp => "Piano Roll"@,
        AppAction::VelocityDown => "Piano Roll"@,
        AppAction::SplitAtPlayhead => "Timeline"@,
        AppAction::Normalize => "Timeline"@,
        AppAction::Reverse => "Timeline"@,
        AppAction::FadeIn => "Timeline"@,
        AppAction::FadeOut => "Timeline"@,
        AppAction::QuantizeDialog => "Piano Roll"@,
        AppAction::TransposeDialog => "Piano Roll"@,
        AppAction::HumanizeDialog => "Piano Roll"@,
        AppAction::Escape => "Other"@,
    }
}

/// The contexts in which an action is valid.
pub open spec fn action_contexts(a: AppAction) -> Seq<ActionContext> {
    match a {
        AppAction::PlayPause => seq![ActionContext::Global],
        AppAction::Stop => seq![ActionContext::Global],
        AppAction::Record => seq![ActionContext::Global],
        AppAction::GoToStart => seq![ActionContext::Global],
        AppAction::Rewind => seq![ActionContext::Global],
        AppAction::FastForward => seq![ActionContext::Global],
        AppAction::Undo => seq![ActionContext::Global],
        AppAction::Redo => seq![ActionContext::Global],
        AppAction::Cut => seq![ActionContext::Global],
        AppAction::Copy => seq![ActionContext::Global],
        AppAction::Paste => seq![ActionContext::Global],
        AppAction::Delete => seq![ActionContext::Global, ActionContext::PianoRoll, ActionContext::Timeline],
        AppAction::SelectAll => seq![ActionContext::Global],
        AppAction::DeselectAll => seq![ActionContext::Global],
        AppAction::Duplicate => seq![ActionContext::Global],
        AppAction::NewProject => seq![ActionContext::Global],
        AppAction::OpenProject => seq![ActionContext::Global],
        AppAction::SaveProject => seq![ActionContext::Global],
        AppAction::SaveProjectAs => seq![ActionContext::Global],
        AppAction::ImportAudio => seq![ActionContext::Global],
        AppAction::ExportAudio => seq![ActionContext::Global],
        AppAction::ZoomIn => seq![ActionContext::Global],
        AppAction::ZoomOut => seq![ActionContext::Global],
        AppAction::ZoomToFit => seq![ActionContext::Global],
        AppAction::ToggleMixer => seq![ActionContext::Global],
        AppAction::TogglePianoRoll => seq![ActionContext::Global],
        AppAction::ToggleTimeline => seq![ActionContext::Global],
        AppAction::ToggleLoop => seq![ActionContext::Global],
        AppAction::SetLoopToSelection => seq![ActionContext::Global],
        AppAction::ClearLoop => seq![ActionContext::Global],
        AppAction::NudgeLeft => seq![ActionContext::PianoRoll],
        AppAction::NudgeRight => seq![ActionContext::PianoRoll],
        AppAction::NudgeLeftFine => seq![ActionContext::PianoRoll],
        AppAction::NudgeRightFine => seq![ActionContext::PianoRoll],
        AppAction::NudgeLeftCoarse => seq![ActionContext::PianoRoll],
        AppAction::NudgeRightCoarse => seq![ActionContext::PianoRoll],
        AppAction::TransposeUp => seq![ActionContext::PianoRoll],
        AppAction::TransposeDown => seq![ActionContext::PianoRoll],
        AppAction::TransposeOctaveUp => seq![ActionContext::PianoRoll],
        AppAction::TransposeOctaveDown => seq![ActionContext::PianoRoll],
        AppAction::VelocityUp => seq![ActionContext::PianoRoll],
        AppAction::VelocityDown => seq![ActionContext::PianoRoll],
        AppAction::SplitAtPlayhead => seq![ActionContext::Timeline],
        AppAction::Normalize => seq![ActionContext::Timeline],
        AppAction::Reverse => seq![ActionContext::Timeline],
        AppAction::FadeIn => seq![ActionContext::Timeline],
        AppAction::FadeOut => seq![ActionContext::Timeline],
        AppAction::QuantizeDialog => seq![ActionContext::PianoRoll],
        AppAction::TransposeDialog => seq![ActionContext::PianoRoll],
        AppAction::HumanizeDialog => seq![ActionContext::PianoRoll],
        AppAction::Escape => seq![ActionContext::Global],
    }
}

/// Every action is valid in some context, and in none twice. The actions
/// of the "Piano Roll" category are valid in the piano roll alone, those of
/// the "Timeline" category in the timeline alone, Delete everywhere it is
/// meant for (globally, in the piano roll and in the timeline), and every
/// other action globally.
#[verifier::rlimit(50)]
pub proof fn lemma_action_contexts(a: AppAction)
    ensures
        action_contexts(a).len() > 0,
        action_contexts(a).no_duplicates(),
        action_category(a) == "Piano Roll"@ <==> action_contexts(a) == seq![ActionContext::PianoRoll],
        action_category(a) == "Timeline"@ <==> action_contexts(a) == seq![ActionContext::Timeline],
        a == AppAction::Delete ==> action_contexts(a) == seq![
            ActionContext::Global,
            ActionContext::PianoRoll,
            ActionContext::Timeline,
        ],
        a != AppAction::Delete && action_category(a) != "Piano Roll"@ && action_category(a)
            != "Timeline"@ ==> action_contexts(a) == seq![ActionContext::Global],
{
    reveal_strlit("Edit");
    reveal_strlit("File");
    reveal_strlit("Loop");
    reveal_strlit("Other");
    reveal_strlit("Piano Roll");
    reveal_strlit("Timeline");
    reveal_strlit("Transport");
    reveal_strlit("View");
    let g = seq![ActionContext::Global];
    let pr = seq![ActionContext::PianoRoll];
    let tl = seq![ActionContext::Timeline];
    assert(g[0] == ActionContext::Global && pr[0] == ActionContext::PianoRoll && tl[0]
        == ActionContext::Timeline);
    assert(seq![ActionContext::Global, ActionContext::PianoRoll, ActionContext::Timeline].len() == 3);
    assert(g.len() == 1 && pr.len() == 1 && tl.len() == 1);
    assert("Piano Roll"@.len() == 10 && "Timeline"@.len() == 8);
    match a {
        AppAction::PlayPause => {},
        AppAction::Stop => {},
        AppAction::Record => {},
        AppAction::GoToStart => {},
        AppAction::Rewind => {},
        AppAction::FastForward => {},
        AppAction::Undo => {},
        AppAction::Redo => {},
        AppAction::Cut => {},
        AppAction::Copy => {},
        AppAction::Paste => {},
        AppAction::Delete => {},
        AppAction::SelectAll => {},
        AppAction::DeselectAll => {},
        AppAction::Duplicate => {},
        AppAction::NewProject => {},
        AppAction::OpenProject => {},
        AppAction::SaveProject => {},
        AppAction::SaveProjectAs => {},
        AppAction::ImportAudio => {},
        AppAction::ExportAudio => {},
        AppAction::ZoomIn => {},
        AppAction::ZoomOut => {},
        AppAction::ZoomToFit => {},
        AppAction::ToggleMixer => {},
        AppAction::TogglePianoRoll => {},
        AppAction::ToggleTimeline => {},
        AppAction::ToggleLoop => {},
        AppAction::SetLoopToSelection => {},
        AppAction::ClearLoop => {},
        AppAction::NudgeLeft => {},
        AppAction::NudgeRight => {},
        AppAction::NudgeLeftFine => {},
        AppAction::NudgeRightFine => {},
        AppAction::NudgeLeftCoarse => {},
        AppAction::NudgeRightCoarse => {},
        AppAction::TransposeUp => {},
        AppAction::TransposeDown => {},
        AppAction::TransposeOctaveUp => {},
        AppAction::TransposeOctaveDown => {},
        AppAction::VelocityUp => {},
        AppAction::VelocityDown => {},
        AppAction::SplitAtPlayhead => {},
        AppAction::Normalize => {},
        AppAction::Reverse => {},
        AppAction::FadeIn => {},
        AppAction::FadeOut => {},
        AppAction::QuantizeDialog => {},
        AppAction::TransposeDialog => {},
        AppAction::HumanizeDialog => {},
        AppAction::Escape => {},
    }
}

/// The enumeration order numbers each action by its position.
pub proof fn lemma_action_index_inverse(a: AppAction)
    ensures
        action_index(a) < ACTION_COUNT,
        action_at(action_index(a)) == a,
        all_actions()[action_index(a) as int] == a,
{
}

/// Distinct actions have distinct positions.
pub proof fn lemma_action_index_injective(a: AppAction, b: AppAction)
    ensures
        action_index(a) == action_index(b) ==> a == b,
{
    lemma_action_index_inverse(a);
    lemma_action_index_inverse(b);
}

impl AppAction {
    /// Every action, in enumeration order (for UI enumeration).
    pub fn all() -> (r: Vec<AppAction>)
        ensures
            r@ == all_actions(),
    {
        let r = vec![AppAction::PlayPause, AppAction::Stop, AppAction::Record, AppAction::GoToStart, AppAction::Rewind, AppAction::FastForward, AppAction::Undo, AppAction::Redo, AppAction::Cut, AppAction::Copy, AppAction::Paste, AppAction::Delete, AppAction::SelectAll, AppAction::DeselectAll, AppAction::Duplicate, AppAction::NewProject, AppAction::OpenProject, AppAction::SaveProject, AppAction::SaveProjectAs, AppAction::ImportAudio, AppAction::ExportAudio, AppAction::ZoomIn, AppAction::ZoomOut, AppAction::ZoomToFit, AppAction::ToggleMixer, AppAction::TogglePianoRoll, AppAction::ToggleTimeline, AppAction::ToggleLoop, AppAction::SetLoopToSelection, AppAction::ClearLoop, AppAction::NudgeLeft, AppAction::NudgeRight, AppAction::NudgeLeftFine, AppAction::NudgeRightFine, AppAction::NudgeLeftCoarse, AppAction::NudgeRightCoarse, AppAction::TransposeUp, AppAction::TransposeDown, AppAction::TransposeOctaveUp, AppAction::TransposeOctaveDown, AppAction::VelocityUp, AppAction::VelocityDown, AppAction::SplitAtPlayhead, AppAction::Normalize, AppAction::Reverse, AppAction::FadeIn, AppAction::FadeOut, AppAction::QuantizeDialog, AppAction::TransposeDialog, AppAction::HumanizeDialog, AppAction::Escape];
        assert(r@ =~= all_actions());
        r
    }

    /// The position of this action in enumeration order.
    pub fn index(&self) -> (r: usize)
        ensures
            r == action_index(*self),
            r < ACTION_COUNT,
    {
        match self {
            AppAction::PlayPause => 0,
            AppAction::Stop => 1,
            AppAction::Record => 2,
            AppAction::GoToStart => 3,
            AppAction::Rewind => 4,
            AppAction::FastForward => 5,
            AppAction::Undo => 6,
            AppAction::Redo => 7,
            AppAction::Cut => 8,
            AppAction::Copy => 9,
            AppAction::Paste => 10,
            AppAction::Delete => 11,
            AppAction::SelectAll => 12,
            AppAction::DeselectAll => 13,
            AppAction::Duplicate => 14,
            AppAction::NewProject => 15,
            AppAction::OpenProject => 16,
            AppAction::SaveProject => 17,
            AppAction::SaveProjectAs => 18,
            AppAction::ImportAudio => 19,
            AppAction::ExportAudio => 20,
            AppAction::ZoomIn => 21,
            AppAction::ZoomOut => 22,
            AppAction::ZoomToFit => 23,
            AppAction::ToggleMixer => 24,
            AppAction::TogglePianoRoll => 25,
            AppAction::ToggleTimeline => 26,
            AppAction::ToggleLoop => 27,
            AppAction::SetLoopToSelection => 28,
            AppAction::ClearLoop => 29,
            AppAction::NudgeLeft => 30,
            AppAction::NudgeRight => 31,
            AppAction::NudgeLeftFine => 32,
            AppAction::NudgeRightFine => 33,
            AppAction::NudgeLeftCoarse => 34,
            AppAction::NudgeRightCoarse => 35,
            AppAction::TransposeUp => 36,
            AppAction::TransposeDown => 37,
            AppAction::TransposeOctaveUp => 38,
            AppAction::TransposeOctaveDown => 39,
            AppAction::VelocityUp => 40,
            AppAction::VelocityDown => 41,
            AppAction::SplitAtPlayhead => 42,
            AppAction::Normalize => 43,
            AppAction::Reverse => 44,
            AppAction::FadeIn => 45,
            AppAction::FadeOut => 46,
            AppAction::QuantizeDialog => 47,
            AppAction::TransposeDialog => 48,
            AppAction::HumanizeDialog => 49,
            AppAction::Escape => 50,
        }
    }

    /// The action at a position of the enumeration order.
    pub fn from_index(i: usize) -> (r: AppAction)
        requires
            i < ACTION_COUNT,
        ensures
            r == action_at(i as nat),
            action_index(r) == i,
    {
        match i {
            0 => AppAction::PlayPause,
            1 => AppAction::Stop,
            2 => AppAction::Record,
            3 => AppAction::GoToStart,
            4 => AppAction::Rewind,
            5 => AppAction::FastForward,
            6 => AppAction::Undo,
            7 => AppAction::Redo,
            8 => AppAction::Cut,
            9 => AppAction::Copy,
            10 => AppAction::Paste,
            11 => AppAction::Delete,
            12 => AppAction::SelectAll,
            13 => AppAction::DeselectAll,
            14 => AppAction::Duplicate,
            15 => AppAction::NewProject,
            16 => AppAction::OpenProject,
            17 => AppAction::SaveProject,
            18 => AppAction::SaveProjectAs,
            19 => AppAction::ImportAudio,
            20 => AppAction::ExportAudio,
            21 => AppAction::ZoomIn,
            22 => AppAction::ZoomOut,
            23 => AppAction::ZoomToFit,
            24 => AppAction::ToggleMixer,
            25 => AppAction::TogglePianoRoll,
            26 => AppAction::ToggleTimeline,
            27 => AppAction::ToggleLoop,
            28 => AppAction::SetLoopToSelection,
            29 => AppAction::ClearLoop,
            30 => AppAction::NudgeLeft,
            31 => AppAction::NudgeRight,
            32 => AppAction::NudgeLeftFine,
            33 => AppAction::NudgeRightFine,
            34 => AppAction::NudgeLeftCoarse,
            35 => AppAction::NudgeRightCoarse,
            36 => AppAction::TransposeUp,
            37 => AppAction::TransposeDown,
            38 => AppAction::TransposeOctaveUp,
            39 => AppAction::TransposeOctaveDown,
            40 => AppAction::VelocityUp,
            41 => AppAction::VelocityDown,
            42 => AppAction::SplitAtPlayhead,
            43 => AppAction::Normalize,
            44 => AppAction::Reverse,
            45 => AppAction::FadeIn,
            46 => AppAction::FadeOut,
            47 => AppAction::QuantizeDialog,
            48 => AppAction::TransposeDialog,
            49 => AppAction::HumanizeDialog,
            _ => AppAction::Escape,
        }
    }

    /// The contexts in which this action is valid.
    pub fn contexts(&self) -> (r: Vec<ActionContext>)
        ensures
            r@ == action_contexts(*self),
    {
        let r = match self {
            AppAction::PlayPause => vec![ActionContext::Global],
            AppAction::Stop => vec![ActionContext::Global],
            AppAction::Record => vec![ActionContext::Global],
            AppAction::GoToStart => vec![ActionContext::Global],
            AppAction::Rewind => vec![ActionContext::Global],
            AppAction::FastForward => vec![ActionContext::Global],
            AppAction::Undo => vec![ActionContext::Global],
            AppAction::Redo => vec![ActionContext::Global],
            AppAction::Cut => vec![ActionContext::Global],
            AppAction::Copy => vec![ActionContext::Global],
            AppAction::Paste => vec![ActionContext::Global],
            AppAction::Delete => vec![ActionContext::Global, ActionContext::PianoRoll, ActionContext::Timeline],
            AppAction::SelectAll => vec![ActionContext::Global],
            AppAction::DeselectAll => vec![ActionContext::Global],
            AppAction::Duplicate => vec![ActionContext::Global],
            AppAction::NewProject => vec![ActionContext::Global],
            AppAction::OpenProject => vec![ActionContext::Global],
            AppAction::SaveProject => vec![ActionContext::Global],
            AppAction::SaveProjectAs => vec![ActionContext::Global],
            AppAction::ImportAudio => vec![ActionContext::Global],
            AppAction::ExportAudio => vec![ActionContext::Global],
            AppAction::ZoomIn => vec![ActionContext::Global],
            AppAction::ZoomOut => vec![ActionContext::Global],
            AppAction::ZoomToFit => vec![ActionContext::Global],
            AppAction::ToggleMixer => vec![ActionContext::Global],
            AppAction::TogglePianoRoll => vec![ActionContext::Global],
            AppAction::ToggleTimeline => vec![ActionContext::Global],
            AppAction::ToggleLoop => vec![ActionContext::Global],
            AppAction::SetLoopToSelection => vec![ActionContext::Global],
            AppAction::ClearLoop => vec![ActionContext::Global],
            AppAction::NudgeLeft => vec![ActionContext::PianoRoll],
            AppAction::NudgeRight => vec![ActionContext::PianoRoll],
            AppAction::NudgeLeftFine => vec![ActionContext::PianoRoll],
            AppAction::NudgeRightFine => vec![ActionContext::PianoRoll],
            AppAction::NudgeLeftCoarse => vec![ActionContext::PianoRoll],
            AppAction::NudgeRightCoarse => vec![ActionContext::PianoRoll],
            AppAction::TransposeUp => vec![ActionContext::PianoRoll],
            AppAction::TransposeDown => vec![ActionContext::PianoRoll],
            AppAction::TransposeOctaveUp => vec![ActionContext::PianoRoll],
            AppAction::TransposeOctaveDown => vec![ActionContext::PianoRoll],
            AppAction::VelocityUp => vec![ActionContext::PianoRoll],
            AppAction::VelocityDown => vec![ActionContext::PianoRoll],
            AppAction::SplitAtPlayhead => vec![ActionContext::Timeline],
            AppAction::Normalize => vec![ActionContext::Timeline],
            AppAction::Reverse => vec![ActionContext::Timeline],
            AppAction::FadeIn => vec![ActionContext::Timeline],
            AppAction::FadeOut => vec![ActionContext::Timeline],
            AppAction::QuantizeDialog => vec![ActionContext::PianoRoll],
            AppAction::TransposeDialog => vec![ActionContext::PianoRoll],
            AppAction::HumanizeDialog => vec![ActionContext::PianoRoll],
            AppAction::Escape => vec![ActionContext::Global],
        };
        assert(r@ =~= action_contexts(*self));
        r
    }

    /// The display name of this action.
    pub fn name(&self) -> (r: &'static str)
        ensures
            r@ == action_name(*self),
    {
        match self {
            AppAction::PlayPause => "Play/Pause",
            AppAction::Stop => "Stop",
            AppAction::Record => "Record",
            AppAction::GoToStart => "Go to Start",
            AppAction::Rewind => "Rewind",
            AppAction::FastForward => "Fast Forward",
            AppAction::Undo => "Undo",
            AppAction::Redo => "Redo",
            AppAction::Cut => "Cut",
            AppAction::Copy => "Copy",
            AppAction::Paste => "Paste",
            AppAction::Delete => "Delete",
            AppAction::SelectAll => "Select All",
            AppAction::DeselectAll => "Deselect All",
            AppAction::Duplicate => "Duplicate",
            AppAction::NewProject => "New Project",
            AppAction::OpenProject => "Open Project",
            AppAction::SaveProject => "Save Project",
            AppAction::SaveProjectAs => "Save Project As",
            AppAction::ImportAudio => "Import Audio",
            AppAction::ExportAudio => "Export Audio",
            AppAction::ZoomIn => "Zoom In",
            AppAction::ZoomOut => "Zoom Out",
            AppAction::ZoomToFit => "Zoom to Fit",
            AppAction::ToggleMixer => "Toggle Mixer",
            AppAction::TogglePianoRoll => "Switch to Piano Roll",
            AppAction::ToggleTimeline => "Switch to Timeline",
            AppAction::ToggleLoop => "Toggle Loop",
            AppAction::SetLoopToSelection => "Set Loop to Selection",
            AppAction::ClearLoop => "Clear Loop",
            AppAction::NudgeLeft => "Nudge Left (Grid)",
            AppAction::NudgeRight => "Nudge Right (Grid)",
            AppAction::NudgeLeftFine => "Nudge Left (Fine)",
            AppAction::NudgeRightFine => "Nudge Right (Fine)",
            AppAction::NudgeLeftCoarse => "Nudge Left (Coarse)",
            AppAction::NudgeRightCoarse => "Nudge Right (Coarse)",
            AppAction::TransposeUp => "Transpose Up",
            AppAction::TransposeDown => "Transpose Down",
            AppAction::TransposeOctaveUp => "Transpose Octave Up",
            AppAction::TransposeOctaveDown => "Transpose Octave Down",
            AppAction::VelocityUp => "Velocity Up",
            AppAction::VelocityDown => "Velocity Down",
            AppAction::SplitAtPlayhead => "Split at Playhead",
            AppAction::Normalize => "Normalize",
            AppAction::Reverse => "Reverse",
            AppAction::FadeIn => "Fade In",
            AppAction::FadeOut => "Fade Out",
            AppAction::QuantizeDialog => "Quantize...",
            AppAction::TransposeDialog => "Transpose...",
            AppAction::HumanizeDialog => "Humanize...",
            AppAction::Escape => "Escape",
        }
    }

    /// The menu category of this action.
    pub fn category(&self) -> (r: &'static str)
        ensures
            r@ == action_category(*self),
    {
        match self {
            AppAction::PlayPause => "Transport",
            AppAction::Stop => "Transport",
            AppAction::Record => "Transport",
            AppAction::GoToStart => "Transport",
            AppAction::Rewind => "Transport",
            AppAction::FastForward => "Transport",
            AppAction::Undo => "Edit",
            AppAction::Redo => "Edit",
            AppAction::Cut => "Edit",
            AppAction::Copy => "Edit",
            AppAction::Paste => "Edit",
            AppAction::Delete => "Edit",
            AppAction::SelectAll => "Edit",
            AppAction::DeselectAll => "Edit",
            AppAction::Duplicate => "Edit",
            AppAction::NewProject => "File",
            AppAction::OpenProject => "File",
            AppAction::SaveProject => "File",
            AppAction::SaveProjectAs => "File",
            AppAction::ImportAudio => "File",
            AppAction::ExportAudio => "File",
            AppAction::ZoomIn => "View",
            AppAction::ZoomOut => "View",
            AppAction::ZoomToFit => "View",
            AppAction::ToggleMixer => "View",
            AppAction::TogglePianoRoll => "View",
            AppAction::ToggleTimeline => "View",
            AppAction::ToggleLoop => "Loop",
            AppAction::SetLoopToSelection => "Loop",
            AppAction::ClearLoop => "Loop",
            AppAction::NudgeLeft => "Piano Roll",
            AppAction::NudgeRight => "Piano Roll",
            AppAction::NudgeLeftFine => "Piano Roll",
            AppAction::NudgeRightFine => "Piano Roll",
            AppAction::NudgeLeftCoarse => "Piano Roll",
            AppAction::NudgeRightCoarse => "Piano Roll",
            AppAction::TransposeUp => "Piano Roll",
            AppAction::TransposeDown => "Piano Roll",
            AppAction::TransposeOctaveUp => "Piano Roll",
            AppAction::TransposeOctaveDown => "Piano Roll",
            AppAction::VelocityUp => "Piano Roll",
            AppAction::VelocityDown => "Piano Roll",
            AppAction::SplitAtPlayhead => "Timeline",
            AppAction::Normalize => "Timeline",
            AppAction::Reverse => "Timeline",
            AppAction::FadeIn => "Timeline",
            AppAction::FadeOut => "Timeline",
            AppAction::QuantizeDialog => "Piano Roll",
            AppAction::TransposeDialog => "Piano Roll",
            AppAction::HumanizeDialog => "Piano Roll",
            AppAction::Escape => "Other",
        }
    }
}

} // verus!
