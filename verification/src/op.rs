//! The steps a probe is made of.
use vstd::prelude::*;

use crate::progress::{TransactionAccessMode, TransactionIsolation, TransactionMode};

verus! {

/// One kind of step.
#[derive(Clone, Copy, Debug, PartialEq, Eq, Structural)]
pub enum Op {
    // Steps that only say or steer.
    Say,
    Cleanup,
    Settled,
    SkipUnless,
    SkipUnlessFine,
    SkipUnlessFailed,
    SkipIfFailed,
    SkipIf,
    Zero,
    KeepMax,
    SkipIfCounted,
    SkipUnlessDid,
    Raise,
    Join,
    SkipUnlessNamed,
    SkipIfNamed,
    Name,
    // Actions that the app performs and answers.
    Run,
    Do,
    Peek,
    Script,
    Execute,
    Ask,
    AskNumber,
    AskCount,
    AskScalar,
    CountRows,
    Start,
    Finish,
    PumpFor,
    Pin,
    Unpin,
    ToolbarMode,
    RetainedMode,
    ConnectionMode,
    SetConnectionMode,
    RestoreConnectionMode,
    Override,
    RetainedState,
    ToolbarRollback,
    AttachOther,
    AttachSame,
    Discard,
    SetAutoCommit,
    SyncAutoCommit,
    TabAutoCommit,
    SelectionError,
    DefaultIsolation,
    IsolationLabel,
    ModeLabel,
    Cancel,
    Reconnect,
    ChangeBlocked,
    LazySession,
    LazyOpen,
    CancelLazy,
    ChangeScope,
    Decision,
    ConnectWriter,
    ConnectGuarded,
    Attempt,
    CompileGuarded,
    RunEdit,
    EditorRollback,
    ResolveTable,
    BuildInserts,
    BuildUpdates,
    BuildWhere,
    LoadKeys,
    ConnectProbe,
    ReconnectProbe,
    TabOpen,
    TabRun,
    TabStart,
    TabWait,
    TabCancel,
    TabClose,
    TabDrop,
    LazyBatch,
    LazyOpenOn,
    DiscardLazy,
    WaitLazyClosed,
    RetainedOn,
    Disconnect,
    Sweep,
    Rebuild,
    StableCount,
    SettledCount,
    CountNow,
    NotConnectedText,
    Connected,
    FormatLabel,
    IsInserts,
    RenderInserts,
    RenderData,
    WriteFile,
    DetectFormat,
    ReadFile,
    ParseText,
    MapColumns,
    BuildImport,
    Describe,
    CompareLiterals,
    ExportRead,
    ReadStructure,
    ImportTargets,
    BuildData,
    Positional,
    ExportInserts,
    RefuseInserts,
    HostileInserts,
    LiteralFor,
    ReadRows,
    RenderTable,
    QualifiedName,
    Setup,
    AutoCommitNow,
    RunScript,
    PinLikeToolbar,
    SessionState,
    NextBlocked,
    MetaConnect,
    Ddl,
    MetaQuery,
    ListRoutines,
    FetchMember,
    FetchStandalone,
    FetchMysql,
    RefuseStandalone,
    RefuseMysql,
    BuildScript,
    SharedSentence,
    Deliver,
    DeliverMember,
    DisplaySample,
    SelectAll,
    SelectRange,
    Snapshot,
    CopyBack,
    StreamSample,
    StreamHeaders,
    SourceSql,
    TabIds,
    TreePaths,
    HasMetadata,
    DisplayedScope,
    ExpandPath,
    Expanded,
    SelectTab,
    NewTab,
    CompletionTables,
    CardCount,
    TabCount,
    HasCard,
    CloseTab,
    SetScope,
    BindingScopes,
    PickScope,
    DriveImport,
    ImportSummary,
    ModalFormats,
    FormatLabels,
    HeaderActive,
    NullActive,
    MappingLabels,
    ModalRefused,
    ModalSummary,
    ShowSql,
    ShowResult,
    HasData,
    RunExport,
    RenderSample,
    SetClipboard,
    ReadClipboard,
    ExportRefusal,
    QueueExport,
    FetchAllAsked,
    NewResult,
    QueuedOutcome,
    CloseSession,
    TakeSnapshot,
    ReplaceResult,
    BuiltInserts,
    BuiltRows,
    ClearSelection,
    ArriveAndExport,
    ModalDriven,
    ReplaceAndExport,
    AlertSeen,
    AlertRight,
    ConnectExport,
    ExportStatement,
    CommitExport,
    ExportQuery,
    // Tests on the statements of a run.
    FirstRefused,
    LastRefused,
    InsertRefused,
    AnyCaseInsertRefused,
    FirstFailed,
    FirstSucceeded,
    FirstNotFailed,
    InsertFinished,
    QuerySucceeded,
    Finished,
    LastSucceeded,
    LastFailed,
    LastSays,
    NotCancelled,
    NoFailure,
    ScriptSays,
    CellIs,
    AllSucceeded,
    NoneSucceeded,
    AllSucceededOrSilent,
    SomethingFailed,
    NoFailureSays,
    NoStatementHolds,
    FirstWorkedIs,
    NothingRan,
    DidNotRun,
    LastNotQuery,
    Matchable,
    ToldOf,
    StillWorks,
    RunsFine,
    // Tests on transaction modes.
    NoModeChange,
    SomeModeChange,
    LastModeChange,
    PinnedIsolation,
    PinnedMode,
    Unpinned,
    UnpinnedAndQuiet,
    SameMode,
    LevelIs,
    LikeDefault,
    // Tests on texts.
    ScalarIs,
    ScalarIsNot,
    ScalarsAre,
    ScalarOn,
    SameTrimmed,
    SameWords,
    WordsAre,
    WordsAreNot,
    WordsHold,
    WordsLack,
    NamedAs,
    SpelledAs,
    NotSpelledAs,
    UpperHolds,
    TextAbsent,
    TextPresent,
    // Tests on numbers.
    NumberIs,
    NumberAtLeast,
    SameNumber,
    OneMore,
    More,
    IsNumber,
    AtMost,
    LastPairSame,
    AboveLastPair,
    // Tests on result grids.
    GridOpened,
    GridRowsAre,
    HasColumn,
    KindIs,
    StartSqlSeen,
    LastPartNamed,
    GridSame,
    GridUpdated,
    KeysAre,
    CountIs,
    CellFound,
    CellIsNamed,
    // Tests on import files, scripts and their runs.
    CatalogWidth,
    LiteralsAgree,
    ParsedAsExpected,
    AllMapped,
    AtLeastParts,
    SomethingRefused,
    ErrorSays,
    GridScalarIs,
    GridScalarIsNot,
    GridCellIs,
    GridCellWidth,
    Did,
    CountTextIs,
    FirstColumnHas,
    StoredHostile,
    StoredCount,
    StoredIs,
    ParsedRowsAre,
    ParsedCellIs,
    ParsedCellAbsent,
    ParsedHostile,
    ParsedNumbered,
    NotInterpolated,
    IsFailed,
    Never,
    // Tests on the columns of a table.
    SomeColumns,
    GeneratedAre,
    OfferedAre,
    LeftOutAre,
    Offers,
    PositionsRight,
    HasColumnA,
    NamesNoComputed,
    ReadWidths,
    HasNullRow,
    NullsArrive,
    ReadCellIs,
    ReadCellHolds,
    ReadRowsAre,
    NullTold,
    ReadColumnsAre,
    // Tests on routines and the scripts made for them.
    Fetched,
    SomeArguments,
    ArgumentsAre,
    RefusedBy,
    NamesAre,
    Lists,
    ListsNot,
    ListsNamed,
    ListedAs,
    Begins,
    NamesWithinLimit,
    OpensScript,
    OpensNothing,
    HasScript,
    DeliveredAs,
    DeliveredKind,
    NameEnds,
    AlertIs,
    // Tests on what the screen shows.
    SameNames,
    NamesDiffer,
    SomeNames,
    NamesAtLeast,
    NameHolds,
    HoldsNameAnd,
    FirstBegins,
    LacksName,
    SameText,
    NeitherFlag,
    YesAndNo,
    BothSame,
    HoldsNot,
    AtMostOneMoved,
    MovedIsOwn,
    QueuedReplaced,
    NotRun,
    WroteOwnRow,
    SameExport,
    // Tests on the state of a tab's session.
    Dirty,
    Resolved,
    Residue,
    Applied,
    StateDirty,
    StateResolved,
    NothingRetained,
    NotYes,
    FlagIs,
    BothFlags,
    MustResolve,
    MayChange,
}

/// What a step is for.
#[derive(Clone, Copy, Debug, PartialEq, Eq, Structural)]
pub enum Class {
    Control,
    Action,
    RunTest,
    ModeTest,
    WordTest,
    NumberTest,
    GridTest,
    ImportTest,
    TableTest,
    RoutineTest,
    ScreenTest,
    StateTest,
}

pub open spec fn class(op: Op) -> Class {
    match op {
        Op::Say | Op::Cleanup | Op::Settled | Op::SkipUnless | Op::SkipUnlessFine
        | Op::SkipUnlessFailed | Op::SkipIfFailed | Op::SkipIf | Op::Zero | Op::KeepMax
        | Op::SkipIfCounted | Op::SkipUnlessDid | Op::Raise | Op::Join | Op::SkipUnlessNamed
        | Op::SkipIfNamed | Op::Name => Class::Control,
        Op::Run | Op::Do | Op::Peek | Op::Script | Op::Execute | Op::Ask | Op::AskNumber
        | Op::AskCount | Op::AskScalar | Op::CountRows | Op::Start | Op::Finish | Op::PumpFor
        | Op::Pin | Op::Unpin | Op::ToolbarMode | Op::RetainedMode | Op::ConnectionMode
        | Op::SetConnectionMode | Op::RestoreConnectionMode | Op::Override | Op::RetainedState
        | Op::ToolbarRollback | Op::AttachOther | Op::AttachSame | Op::Discard
        | Op::SetAutoCommit | Op::SyncAutoCommit | Op::TabAutoCommit | Op::SelectionError
        | Op::DefaultIsolation | Op::IsolationLabel | Op::ModeLabel | Op::Cancel
        | Op::Reconnect | Op::ChangeBlocked | Op::LazySession | Op::LazyOpen | Op::CancelLazy
        | Op::ChangeScope | Op::Decision | Op::ConnectWriter | Op::ConnectGuarded | Op::Attempt
        | Op::CompileGuarded | Op::RunEdit | Op::EditorRollback | Op::ResolveTable
        | Op::BuildInserts | Op::BuildUpdates | Op::BuildWhere | Op::LoadKeys
        | Op::ConnectProbe | Op::ReconnectProbe | Op::TabOpen | Op::TabRun | Op::TabStart
        | Op::TabWait | Op::TabCancel | Op::TabClose | Op::TabDrop | Op::LazyBatch
        | Op::LazyOpenOn | Op::DiscardLazy | Op::WaitLazyClosed | Op::RetainedOn
        | Op::Disconnect | Op::Sweep | Op::Rebuild | Op::StableCount | Op::SettledCount
        | Op::CountNow | Op::NotConnectedText | Op::Connected | Op::FormatLabel | Op::IsInserts
        | Op::RenderInserts | Op::RenderData | Op::WriteFile | Op::DetectFormat | Op::ReadFile
        | Op::ParseText | Op::MapColumns | Op::BuildImport | Op::Describe | Op::CompareLiterals
        | Op::ExportRead | Op::ReadStructure | Op::ImportTargets | Op::BuildData
        | Op::Positional | Op::ExportInserts | Op::RefuseInserts | Op::HostileInserts
        | Op::LiteralFor | Op::ReadRows | Op::RenderTable | Op::QualifiedName | Op::Setup
        | Op::AutoCommitNow | Op::RunScript | Op::PinLikeToolbar | Op::SessionState
        | Op::NextBlocked | Op::MetaConnect | Op::Ddl | Op::MetaQuery | Op::ListRoutines
        | Op::FetchMember | Op::FetchStandalone | Op::FetchMysql | Op::RefuseStandalone
        | Op::RefuseMysql | Op::BuildScript | Op::SharedSentence | Op::Deliver
        | Op::DeliverMember | Op::DisplaySample | Op::SelectAll | Op::SelectRange
        | Op::Snapshot | Op::CopyBack | Op::StreamSample | Op::StreamHeaders | Op::SourceSql
        | Op::TabIds | Op::TreePaths | Op::HasMetadata | Op::DisplayedScope | Op::ExpandPath
        | Op::Expanded | Op::SelectTab | Op::NewTab | Op::CompletionTables | Op::CardCount
        | Op::TabCount | Op::HasCard | Op::CloseTab | Op::SetScope | Op::BindingScopes
        | Op::PickScope | Op::DriveImport | Op::ImportSummary | Op::ModalFormats
        | Op::FormatLabels | Op::HeaderActive | Op::NullActive | Op::MappingLabels
        | Op::ModalRefused | Op::ModalSummary | Op::ShowSql | Op::ShowResult | Op::HasData
        | Op::RunExport | Op::RenderSample | Op::SetClipboard | Op::ReadClipboard
        | Op::ExportRefusal | Op::QueueExport | Op::FetchAllAsked | Op::NewResult
        | Op::QueuedOutcome | Op::CloseSession | Op::TakeSnapshot | Op::ReplaceResult
        | Op::BuiltInserts | Op::BuiltRows | Op::ClearSelection | Op::ArriveAndExport
        | Op::ModalDriven | Op::ReplaceAndExport | Op::AlertSeen | Op::AlertRight
        | Op::ConnectExport | Op::ExportStatement | Op::CommitExport | Op::ExportQuery => Class::Action,
        Op::FirstRefused | Op::LastRefused | Op::InsertRefused | Op::AnyCaseInsertRefused
        | Op::FirstFailed | Op::FirstSucceeded | Op::FirstNotFailed | Op::InsertFinished
        | Op::QuerySucceeded | Op::Finished | Op::LastSucceeded | Op::LastFailed | Op::LastSays
        | Op::NotCancelled | Op::NoFailure | Op::ScriptSays | Op::CellIs | Op::AllSucceeded
        | Op::NoneSucceeded | Op::AllSucceededOrSilent | Op::SomethingFailed
        | Op::NoFailureSays | Op::NoStatementHolds | Op::FirstWorkedIs | Op::NothingRan
        | Op::DidNotRun | Op::LastNotQuery | Op::Matchable | Op::ToldOf | Op::StillWorks
        | Op::RunsFine => Class::RunTest,
        Op::NoModeChange | Op::SomeModeChange | Op::LastModeChange | Op::PinnedIsolation
        | Op::PinnedMode | Op::Unpinned | Op::UnpinnedAndQuiet | Op::SameMode | Op::LevelIs
        | Op::LikeDefault => Class::ModeTest,
        Op::ScalarIs | Op::ScalarIsNot | Op::ScalarsAre | Op::ScalarOn | Op::SameTrimmed
        | Op::SameWords | Op::WordsAre | Op::WordsAreNot | Op::WordsHold | Op::WordsLack
        | Op::NamedAs | Op::SpelledAs | Op::NotSpelledAs | Op::UpperHolds | Op::TextAbsent
        | Op::TextPresent => Class::WordTest,
        Op::NumberIs | Op::NumberAtLeast | Op::SameNumber | Op::OneMore | Op::More
        | Op::IsNumber | Op::AtMost | Op::LastPairSame | Op::AboveLastPair => Class::NumberTest,
        Op::GridOpened | Op::GridRowsAre | Op::HasColumn | Op::KindIs | Op::StartSqlSeen
        | Op::LastPartNamed | Op::GridSame | Op::GridUpdated | Op::KeysAre | Op::CountIs
        | Op::CellFound | Op::CellIsNamed => Class::GridTest,
        Op::CatalogWidth | Op::LiteralsAgree | Op::ParsedAsExpected | Op::AllMapped
        | Op::AtLeastParts | Op::SomethingRefused | Op::ErrorSays | Op::GridScalarIs
        | Op::GridScalarIsNot | Op::GridCellIs | Op::GridCellWidth | Op::Did | Op::CountTextIs
        | Op::FirstColumnHas | Op::StoredHostile | Op::StoredCount | Op::StoredIs
        | Op::ParsedRowsAre | Op::ParsedCellIs | Op::ParsedCellAbsent | Op::ParsedHostile
        | Op::ParsedNumbered | Op::NotInterpolated | Op::IsFailed | Op::Never => Class::ImportTest,
        Op::SomeColumns | Op::GeneratedAre | Op::OfferedAre | Op::LeftOutAre | Op::Offers
        | Op::PositionsRight | Op::HasColumnA | Op::NamesNoComputed | Op::ReadWidths
        | Op::HasNullRow | Op::NullsArrive | Op::ReadCellIs | Op::ReadCellHolds
        | Op::ReadRowsAre | Op::NullTold | Op::ReadColumnsAre => Class::TableTest,
        Op::Fetched | Op::SomeArguments | Op::ArgumentsAre | Op::RefusedBy | Op::NamesAre
        | Op::Lists | Op::ListsNot | Op::ListsNamed | Op::ListedAs | Op::Begins
        | Op::NamesWithinLimit | Op::OpensScript | Op::OpensNothing | Op::HasScript
        | Op::DeliveredAs | Op::DeliveredKind | Op::NameEnds | Op::AlertIs => Class::RoutineTest,
        Op::SameNames | Op::NamesDiffer | Op::SomeNames | Op::NamesAtLeast | Op::NameHolds
        | Op::HoldsNameAnd | Op::FirstBegins | Op::LacksName | Op::SameText | Op::NeitherFlag
        | Op::YesAndNo | Op::BothSame | Op::HoldsNot | Op::AtMostOneMoved | Op::MovedIsOwn
        | Op::QueuedReplaced | Op::NotRun | Op::WroteOwnRow | Op::SameExport => Class::ScreenTest,
        Op::Dirty | Op::Resolved | Op::Residue | Op::Applied | Op::StateDirty
        | Op::StateResolved | Op::NothingRetained | Op::NotYes | Op::FlagIs | Op::BothFlags
        | Op::MustResolve | Op::MayChange => Class::StateTest,
    }
}

pub fn class_of(op: Op) -> (r: Class)
    ensures
        r == class(op),
{
    match op {
        Op::Say | Op::Cleanup | Op::Settled | Op::SkipUnless | Op::SkipUnlessFine
        | Op::SkipUnlessFailed | Op::SkipIfFailed | Op::SkipIf | Op::Zero | Op::KeepMax
        | Op::SkipIfCounted | Op::SkipUnlessDid | Op::Raise | Op::Join | Op::SkipUnlessNamed
        | Op::SkipIfNamed | Op::Name => Class::Control,
        Op::Run | Op::Do | Op::Peek | Op::Script | Op::Execute | Op::Ask | Op::AskNumber
        | Op::AskCount | Op::AskScalar | Op::CountRows | Op::Start | Op::Finish | Op::PumpFor
        | Op::Pin | Op::Unpin | Op::ToolbarMode | Op::RetainedMode | Op::ConnectionMode
        | Op::SetConnectionMode | Op::RestoreConnectionMode | Op::Override | Op::RetainedState
        | Op::ToolbarRollback | Op::AttachOther | Op::AttachSame | Op::Discard
        | Op::SetAutoCommit | Op::SyncAutoCommit | Op::TabAutoCommit | Op::SelectionError
        | Op::DefaultIsolation | Op::IsolationLabel | Op::ModeLabel | Op::Cancel
        | Op::Reconnect | Op::ChangeBlocked | Op::LazySession | Op::LazyOpen | Op::CancelLazy
        | Op::ChangeScope | Op::Decision | Op::ConnectWriter | Op::ConnectGuarded | Op::Attempt
        | Op::CompileGuarded | Op::RunEdit | Op::EditorRollback | Op::ResolveTable
        | Op::BuildInserts | Op::BuildUpdates | Op::BuildWhere | Op::LoadKeys
        | Op::ConnectProbe | Op::ReconnectProbe | Op::TabOpen | Op::TabRun | Op::TabStart
        | Op::TabWait | Op::TabCancel | Op::TabClose | Op::TabDrop | Op::LazyBatch
        | Op::LazyOpenOn | Op::DiscardLazy | Op::WaitLazyClosed | Op::RetainedOn
        | Op::Disconnect | Op::Sweep | Op::Rebuild | Op::StableCount | Op::SettledCount
        | Op::CountNow | Op::NotConnectedText | Op::Connected | Op::FormatLabel | Op::IsInserts
        | Op::RenderInserts | Op::RenderData | Op::WriteFile | Op::DetectFormat | Op::ReadFile
        | Op::ParseText | Op::MapColumns | Op::BuildImport | Op::Describe | Op::CompareLiterals
        | Op::ExportRead | Op::ReadStructure | Op::ImportTargets | Op::BuildData
        | Op::Positional | Op::ExportInserts | Op::RefuseInserts | Op::HostileInserts
        | Op::LiteralFor | Op::ReadRows | Op::RenderTable | Op::QualifiedName | Op::Setup
        | Op::AutoCommitNow | Op::RunScript | Op::PinLikeToolbar | Op::SessionState
        | Op::NextBlocked | Op::MetaConnect | Op::Ddl | Op::MetaQuery | Op::ListRoutines
        | Op::FetchMember | Op::FetchStandalone | Op::FetchMysql | Op::RefuseStandalone
        | Op::RefuseMysql | Op::BuildScript | Op::SharedSentence | Op::Deliver
        | Op::DeliverMember | Op::DisplaySample | Op::SelectAll | Op::SelectRange
        | Op::Snapshot | Op::CopyBack | Op::StreamSample | Op::StreamHeaders | Op::SourceSql
        | Op::TabIds | Op::TreePaths | Op::HasMetadata | Op::DisplayedScope | Op::ExpandPath
        | Op::Expanded | Op::SelectTab | Op::NewTab | Op::CompletionTables | Op::CardCount
        | Op::TabCount | Op::HasCard | Op::CloseTab | Op::SetScope | Op::BindingScopes
        | Op::PickScope | Op::DriveImport | Op::ImportSummary | Op::ModalFormats
        | Op::FormatLabels | Op::HeaderActive | Op::NullActive | Op::MappingLabels
        | Op::ModalRefused | Op::ModalSummary | Op::ShowSql | Op::ShowResult | Op::HasData
        | Op::RunExport | Op::RenderSample | Op::SetClipboard | Op::ReadClipboard
        | Op::ExportRefusal | Op::QueueExport | Op::FetchAllAsked | Op::NewResult
        | Op::QueuedOutcome | Op::CloseSession | Op::TakeSnapshot | Op::ReplaceResult
        | Op::BuiltInserts | Op::BuiltRows | Op::ClearSelection | Op::ArriveAndExport
        | Op::ModalDriven | Op::ReplaceAndExport | Op::AlertSeen | Op::AlertRight
        | Op::ConnectExport | Op::ExportStatement | Op::CommitExport | Op::ExportQuery => Class::Action,
        Op::FirstRefused | Op::LastRefused | Op::InsertRefused | Op::AnyCaseInsertRefused
        | Op::FirstFailed | Op::FirstSucceeded | Op::FirstNotFailed | Op::InsertFinished
        | Op::QuerySucceeded | Op::Finished | Op::LastSucceeded | Op::LastFailed | Op::LastSays
        | Op::NotCancelled | Op::NoFailure | Op::ScriptSays | Op::CellIs | Op::AllSucceeded
        | Op::NoneSucceeded | Op::AllSucceededOrSilent | Op::SomethingFailed
        | Op::NoFailureSays | Op::NoStatementHolds | Op::FirstWorkedIs | Op::NothingRan
        | Op::DidNotRun | Op::LastNotQuery | Op::Matchable | Op::ToldOf | Op::StillWorks
        | Op::RunsFine => Class::RunTest,
        Op::NoModeChange | Op::SomeModeChange | Op::LastModeChange | Op::PinnedIsolation
        | Op::PinnedMode | Op::Unpinned | Op::UnpinnedAndQuiet | Op::SameMode | Op::LevelIs
        | Op::LikeDefault => Class::ModeTest,
        Op::ScalarIs | Op::ScalarIsNot | Op::ScalarsAre | Op::ScalarOn | Op::SameTrimmed
        | Op::SameWords | Op::WordsAre | Op::WordsAreNot | Op::WordsHold | Op::WordsLack
        | Op::NamedAs | Op::SpelledAs | Op::NotSpelledAs | Op::UpperHolds | Op::TextAbsent
        | Op::TextPresent => Class::WordTest,
        Op::NumberIs | Op::NumberAtLeast | Op::SameNumber | Op::OneMore | Op::More
        | Op::IsNumber | Op::AtMost | Op::LastPairSame | Op::AboveLastPair => Class::NumberTest,
        Op::GridOpened | Op::GridRowsAre | Op::HasColumn | Op::KindIs | Op::StartSqlSeen
        | Op::LastPartNamed | Op::GridSame | Op::GridUpdated | Op::KeysAre | Op::CountIs
        | Op::CellFound | Op::CellIsNamed => Class::GridTest,
        Op::CatalogWidth | Op::LiteralsAgree | Op::ParsedAsExpected | Op::AllMapped
        | Op::AtLeastParts | Op::SomethingRefused | Op::ErrorSays | Op::GridScalarIs
        | Op::GridScalarIsNot | Op::GridCellIs | Op::GridCellWidth | Op::Did | Op::CountTextIs
        | Op::FirstColumnHas | Op::StoredHostile | Op::StoredCount | Op::StoredIs
        | Op::ParsedRowsAre | Op::ParsedCellIs | Op::ParsedCellAbsent | Op::ParsedHostile
        | Op::ParsedNumbered | Op::NotInterpolated | Op::IsFailed | Op::Never => Class::ImportTest,
        Op::SomeColumns | Op::GeneratedAre | Op::OfferedAre | Op::LeftOutAre | Op::Offers
        | Op::PositionsRight | Op::HasColumnA | Op::NamesNoComputed | Op::ReadWidths
        | Op::HasNullRow | Op::NullsArrive | Op::ReadCellIs | Op::ReadCellHolds
        | Op::ReadRowsAre | Op::NullTold | Op::ReadColumnsAre => Class::TableTest,
        Op::Fetched | Op::SomeArguments | Op::ArgumentsAre | Op::RefusedBy | Op::NamesAre
        | Op::Lists | Op::ListsNot | Op::ListsNamed | Op::ListedAs | Op::Begins
        | Op::NamesWithinLimit | Op::OpensScript | Op::OpensNothing | Op::HasScript
        | Op::DeliveredAs | Op::DeliveredKind | Op::NameEnds | Op::AlertIs => Class::RoutineTest,
        Op::SameNames | Op::NamesDiffer | Op::SomeNames | Op::NamesAtLeast | Op::NameHolds
        | Op::HoldsNameAnd | Op::FirstBegins | Op::LacksName | Op::SameText | Op::NeitherFlag
        | Op::YesAndNo | Op::BothSame | Op::HoldsNot | Op::AtMostOneMoved | Op::MovedIsOwn
        | Op::QueuedReplaced | Op::NotRun | Op::WroteOwnRow | Op::SameExport => Class::ScreenTest,
        Op::Dirty | Op::Resolved | Op::Residue | Op::Applied | Op::StateDirty
        | Op::StateResolved | Op::NothingRetained | Op::NotYes | Op::FlagIs | Op::BothFlags
        | Op::MustResolve | Op::MayChange => Class::StateTest,
    }
}

/// The slot of the connection's own isolation level.
pub const DEFAULT_LEVEL_SLOT: usize = 9;

/// A number that a plan leaves open.
pub const HERE: usize = 98;

/// Mode numbers: twice the isolation level, plus one where read only.
pub const DEFAULT_MODE: usize = 0;

pub const READ_ONLY: usize = 1;

pub const UNCOMMITTED: usize = 2;

pub const COMMITTED: usize = 4;

pub const COMMITTED_READ_ONLY: usize = 5;

pub const REPEATABLE: usize = 6;

pub const SERIALIZABLE: usize = 8;

pub const SERIALIZABLE_READ_ONLY: usize = 9;

/// The isolation level of a mode number.
pub open spec fn isolation_code(code: int) -> TransactionIsolation {
    if code / 2 == 1 {
        TransactionIsolation::ReadUncommitted
    } else if code / 2 == 2 {
        TransactionIsolation::ReadCommitted
    } else if code / 2 == 3 {
        TransactionIsolation::RepeatableRead
    } else if code / 2 == 4 {
        TransactionIsolation::Serializable
    } else {
        TransactionIsolation::Default
    }
}

/// The transaction mode of a mode number.
pub open spec fn mode_code(code: int) -> TransactionMode {
    TransactionMode {
        isolation: isolation_code(code),
        access: if code % 2 == 1 {
            TransactionAccessMode::ReadOnly
        } else {
            TransactionAccessMode::ReadWrite
        },
    }
}

pub fn isolation_at(code: usize) -> (r: TransactionIsolation)
    ensures
        r == isolation_code(code as int),
{
    let level: usize = code / 2;
    if level == 1 {
        TransactionIsolation::ReadUncommitted
    } else if level == 2 {
        TransactionIsolation::ReadCommitted
    } else if level == 3 {
        TransactionIsolation::RepeatableRead
    } else if level == 4 {
        TransactionIsolation::Serializable
    } else {
        TransactionIsolation::Default
    }
}

pub fn mode_at(code: usize) -> (r: TransactionMode)
    ensures
        r == mode_code(code as int),
{
    TransactionMode {
        isolation: isolation_at(code),
        access: if code % 2 == 1 {
            TransactionAccessMode::ReadOnly
        } else {
            TransactionAccessMode::ReadWrite
        },
    }
}

/// The mode number of an isolation level, read-write.
pub open spec fn level_code(isolation: TransactionIsolation) -> int {
    match isolation {
        TransactionIsolation::Default => 0,
        TransactionIsolation::ReadUncommitted => 2,
        TransactionIsolation::ReadCommitted => 4,
        TransactionIsolation::RepeatableRead => 6,
        TransactionIsolation::Serializable => 8,
    }
}

pub fn level_at(isolation: TransactionIsolation) -> (r: usize)
    ensures
        r as int == level_code(isolation),
{
    match isolation {
        TransactionIsolation::Default => 0,
        TransactionIsolation::ReadUncommitted => 2,
        TransactionIsolation::ReadCommitted => 4,
        TransactionIsolation::RepeatableRead => 6,
        TransactionIsolation::Serializable => 8,
    }
}

/// Numbering a level and reading the number back gives the level, in either
/// access mode.
pub proof fn mode_numbers_are_faithful(isolation: TransactionIsolation)
    ensures
        isolation_code(level_code(isolation)) == isolation,
        mode_code(level_code(isolation)) == (TransactionMode {
            isolation,
            access: TransactionAccessMode::ReadWrite,
        }),
        mode_code(level_code(isolation) + 1) == (TransactionMode {
            isolation,
            access: TransactionAccessMode::ReadOnly,
        }),
{
}

} // verus!
