//! Errors that the database reports through its last-error slot, and the
//! errors of transaction handling.
use vstd::prelude::*;

verus! {

/// Transaction-related error cases.
#[derive(Debug, Clone, Copy, PartialEq, Eq, Structural)]
pub enum TransactionError {
    AlreadyStarted,
    FailedToCommit,
    FailedToRollback,
}

impl TransactionError {
    /// The text that describes the error.
    pub open spec fn text(self) -> Seq<char> {
        match self {
            TransactionError::AlreadyStarted => "Transaction has already been started"@,
            TransactionError::FailedToCommit => "Failed to commit"@,
            TransactionError::FailedToRollback => "Failed to rollback"@,
        }
    }

    /// The text that describes the error.
    pub fn description(&self) -> (r: &'static str)
        ensures
            r@ == self.text(),
    {
        match self {
            TransactionError::AlreadyStarted => {
                proof {
                    reveal_strlit("Transaction has already been started");
                }
                "Transaction has already been started"
            },
            TransactionError::FailedToCommit => {
                proof {
                    reveal_strlit("Failed to commit");
                }
                "Failed to commit"
            },
            TransactionError::FailedToRollback => {
                proof {
                    reveal_strlit("Failed to rollback");
                }
                "Failed to rollback"
            },
        }
    }
}

/// Codes of the errors that the database reports, each with its numeric
/// IPROTO code.
#[derive(Debug, Clone, Copy, PartialEq, Eq, Structural)]
pub enum TarantoolErrorCode {
    Unknown,
    IllegalParams,
    MemoryIssue,
    TupleFound,
    TupleNotFound,
    Unsupported,
    NonMaster,
    Readonly,
    Injection,
    CreateSpace,
    SpaceExists,
    DropSpace,
    AlterSpace,
    IndexType,
    ModifyIndex,
    LastDrop,
    TupleFormatLimit,
    DropPrimaryKey,
    KeyPartType,
    ExactMatch,
    InvalidMsgpack,
    ProcRet,
    TupleNotArray,
    FieldType,
    IndexPartTypeMismatch,
    Splice,
    UpdateArgType,
    FormatMismatchIndexPart,
    UnknownUpdateOp,
    UpdateField,
    FunctionTxActive,
    KeyPartCount,
    ProcLua,
    NoSuchProc,
    NoSuchTrigger,
    NoSuchIndexID,
    NoSuchSpace,
    NoSuchFieldNo,
    ExactFieldCount,
    FieldMissing,
    WalIo,
    MoreThanOneTuple,
    AccessDenied,
    CreateUser,
    DropUser,
    NoSuchUser,
    UserExists,
    PasswordMismatch,
    UnknownRequestType,
    UnknownSchemaObject,
    CreateFunction,
    NoSuchFunction,
    FunctionExists,
    BeforeReplaceRet,
    MultistatementTransaction,
    TriggerExists,
    UserMax,
    NoSuchEngine,
    ReloadCfg,
    Cfg,
    SavepointEmptyTx,
    NoSuchSavepoint,
    UnknownReplica,
    ReplicasetUuidMismatch,
    InvalidUuid,
    ReplicasetUuidIsRo,
    InstanceUuidMismatch,
    ReplicaIDIsReserved,
    InvalidOrder,
    MissingRequestField,
    Identifier,
    DropFunction,
    IteratorType,
    ReplicaMax,
    InvalidXlog,
    InvalidXlogName,
    InvalidXlogOrder,
    NoConnection,
    Timeout,
    ActiveTransaction,
    CursorNoTransaction,
    CrossEngineTransaction,
    NoSuchRole,
    RoleExists,
    CreateRole,
    IndexExists,
    SessionClosed,
    RoleLoop,
    Grant,
    PrivGranted,
    RoleGranted,
    PrivNotGranted,
    RoleNotGranted,
    MissingSnapshot,
    CantUpdatePrimaryKey,
    UpdateIntegerOverflow,
    GuestUserPassword,
    TransactionConflict,
    UnsupportedPriv,
    LoadFunction,
    FunctionLanguage,
    RtreeRect,
    ProcC,
    UnknownRtreeIndexDistanceType,
    Protocol,
    UpsertUniqueSecondaryKey,
    WrongIndexRecord,
    WrongIndexParts,
    WrongIndexOptions,
    WrongSchemaVersion,
    MemtxMaxTupleSize,
    WrongSpaceOptions,
    UnsupportedIndexFeature,
    ViewIsRo,
    NoTransaction,
    System,
    Loading,
    ConnectionToSelf,
    KeyPartIsTooLong,
    Compression,
    CheckpointInProgress,
    SubStmtMax,
    CommitInSubStmt,
    RollbackInSubStmt,
    Decompression,
    InvalidXlogType,
    AlreadyRunning,
    IndexFieldCountLimit,
    LocalInstanceIDIsReadOnly,
    BackupInProgress,
    ReadViewAborted,
    InvalidIndexFile,
    InvalidRunFile,
    InvalidVylogFile,
    CheckpointRollback,
    VyQuotaTimeout,
    PartialKey,
    TruncateSystemSpace,
    LoadModule,
    VinylMaxTupleSize,
    WrongDdVersion,
    WrongSpaceFormat,
    CreateSequence,
    AlterSequence,
    DropSequence,
    NoSuchSequence,
    SequenceExists,
    SequenceOverflow,
    NoSuchIndexName,
    SpaceFieldIsDuplicate,
    CantCreateCollation,
    WrongCollationOptions,
    NullablePrimary,
    NoSuchFieldName,
    TransactionYield,
    NoSuchGroup,
    SqlBindValue,
    SqlBindType,
    SqlBindParameterMax,
    SqlExecute,
    Unused,
    SqlBindNotFound,
    ActionMismatch,
    ViewMissingSql,
    ForeignKeyConstraint,
    NoSuchModule,
    NoSuchCollation,
    CreateFkConstraint,
    DropFkConstraint,
    NoSuchConstraint,
    ConstraintExists,
    SqlTypeMismatch,
    RowidOverflow,
    DropCollation,
    IllegalCollationMix,
    SqlNoSuchPragma,
    SqlCantResolveField,
    IndexExistsInSpace,
    InconsistentTypes,
    SqlSyntax,
    SqlStackOverflow,
    SqlSelectWildcard,
    SqlStatementEmpty,
    SqlKeywordIsReserved,
    SqlUnrecognizedSyntax,
    SqlUnknownToken,
    SqlParserGeneric,
    SqlAnalyzeArgument,
    SqlColumnCountMax,
    HexLiteralMax,
    IntLiteralMax,
    SqlParserLimit,
    IndexDefUnsupported,
    CkDefUnsupported,
    MultikeyIndexMismatch,
    CreateCkConstraint,
    CkConstraintFailed,
    SqlColumnCount,
    FuncIndexFunc,
    FuncIndexFormat,
    FuncIndexParts,
    BootstrapReadonly,
}

/// The number of known error codes: they are numbered from 0 up.
pub const KNOWN_CODES: u32 = 202;

impl TarantoolErrorCode {
    /// The numeric code of an error kind.
    pub open spec fn code(self) -> u32 {
        match self {
            TarantoolErrorCode::Unknown => 0,
            TarantoolErrorCode::IllegalParams => 1,
            TarantoolErrorCode::MemoryIssue => 2,
            TarantoolErrorCode::TupleFound => 3,
            TarantoolErrorCode::TupleNotFound => 4,
            TarantoolErrorCode::Unsupported => 5,
            TarantoolErrorCode::NonMaster => 6,
            TarantoolErrorCode::Readonly => 7,
            TarantoolErrorCode::Injection => 8,
            TarantoolErrorCode::CreateSpace => 9,
            TarantoolErrorCode::SpaceExists => 10,
            TarantoolErrorCode::DropSpace => 11,
            TarantoolErrorCode::AlterSpace => 12,
            TarantoolErrorCode::IndexType => 13,
            TarantoolErrorCode::ModifyIndex => 14,
            TarantoolErrorCode::LastDrop => 15,
            TarantoolErrorCode::TupleFormatLimit => 16,
            TarantoolErrorCode::DropPrimaryKey => 17,
            TarantoolErrorCode::KeyPartType => 18,
            TarantoolErrorCode::ExactMatch => 19,
            TarantoolErrorCode::InvalidMsgpack => 20,
            TarantoolErrorCode::ProcRet => 21,
            TarantoolErrorCode::TupleNotArray => 22,
            TarantoolErrorCode::FieldType => 23,
            TarantoolErrorCode::IndexPartTypeMismatch => 24,
            TarantoolErrorCode::Splice => 25,
            TarantoolErrorCode::UpdateArgType => 26,
            TarantoolErrorCode::FormatMismatchIndexPart => 27,
            TarantoolErrorCode::UnknownUpdateOp => 28,
            TarantoolErrorCode::UpdateField => 29,
            TarantoolErrorCode::FunctionTxActive => 30,
            TarantoolErrorCode::KeyPartCount => 31,
            TarantoolErrorCode::ProcLua => 32,
            TarantoolErrorCode::NoSuchProc => 33,
            TarantoolErrorCode::NoSuchTrigger => 34,
            TarantoolErrorCode::NoSuchIndexID => 35,
            TarantoolErrorCode::NoSuchSpace => 36,
            TarantoolErrorCode::NoSuchFieldNo => 37,
            TarantoolErrorCode::ExactFieldCount => 38,
            TarantoolErrorCode::FieldMissing => 39,
            TarantoolErrorCode::WalIo => 40,
            TarantoolErrorCode::MoreThanOneTuple => 41,
            TarantoolErrorCode::AccessDenied => 42,
            TarantoolErrorCode::CreateUser => 43,
            TarantoolErrorCode::DropUser => 44,
            TarantoolErrorCode::NoSuchUser => 45,
            TarantoolErrorCode::UserExists => 46,
            TarantoolErrorCode::PasswordMismatch => 47,
            TarantoolErrorCode::UnknownRequestType => 48,
            TarantoolErrorCode::UnknownSchemaObject => 49,
            TarantoolErrorCode::CreateFunction => 50,
            TarantoolErrorCode::NoSuchFunction => 51,
            TarantoolErrorCode::FunctionExists => 52,
            TarantoolErrorCode::BeforeReplaceRet => 53,
            TarantoolErrorCode::MultistatementTransaction => 54,
            TarantoolErrorCode::TriggerExists => 55,
            TarantoolErrorCode::UserMax => 56,
            TarantoolErrorCode::NoSuchEngine => 57,
            TarantoolErrorCode::ReloadCfg => 58,
            TarantoolErrorCode::Cfg => 59,
            TarantoolErrorCode::SavepointEmptyTx => 60,
            TarantoolErrorCode::NoSuchSavepoint => 61,
            TarantoolErrorCode::UnknownReplica => 62,
            TarantoolErrorCode::ReplicasetUuidMismatch => 63,
            TarantoolErrorCode::InvalidUuid => 64,
            TarantoolErrorCode::ReplicasetUuidIsRo => 65,
            TarantoolErrorCode::InstanceUuidMismatch => 66,
            TarantoolErrorCode::ReplicaIDIsReserved => 67,
            TarantoolErrorCode::InvalidOrder => 68,
            TarantoolErrorCode::MissingRequestField => 69,
            TarantoolErrorCode::Identifier => 70,
            TarantoolErrorCode::DropFunction => 71,
            TarantoolErrorCode::IteratorType => 72,
            TarantoolErrorCode::ReplicaMax => 73,
            TarantoolErrorCode::InvalidXlog => 74,
            TarantoolErrorCode::InvalidXlogName => 75,
            TarantoolErrorCode::InvalidXlogOrder => 76,
            TarantoolErrorCode::NoConnection => 77,
            TarantoolErrorCode::Timeout => 78,
            TarantoolErrorCode::ActiveTransaction => 79,
            TarantoolErrorCode::CursorNoTransaction => 80,
            TarantoolErrorCode::CrossEngineTransaction => 81,
            TarantoolErrorCode::NoSuchRole => 82,
            TarantoolErrorCode::RoleExists => 83,
            TarantoolErrorCode::CreateRole => 84,
            TarantoolErrorCode::IndexExists => 85,
            TarantoolErrorCode::SessionClosed => 86,
            TarantoolErrorCode::RoleLoop => 87,
            TarantoolErrorCode::Grant => 88,
            TarantoolErrorCode::PrivGranted => 89,
            TarantoolErrorCode::RoleGranted => 90,
            TarantoolErrorCode::PrivNotGranted => 91,
            TarantoolErrorCode::RoleNotGranted => 92,
            TarantoolErrorCode::MissingSnapshot => 93,
            TarantoolErrorCode::CantUpdatePrimaryKey => 94,
            TarantoolErrorCode::UpdateIntegerOverflow => 95,
            TarantoolErrorCode::GuestUserPassword => 96,
            TarantoolErrorCode::TransactionConflict => 97,
            TarantoolErrorCode::UnsupportedPriv => 98,
            TarantoolErrorCode::LoadFunction => 99,
            TarantoolErrorCode::FunctionLanguage => 100,
            TarantoolErrorCode::RtreeRect => 101,
            TarantoolErrorCode::ProcC => 102,
            TarantoolErrorCode::UnknownRtreeIndexDistanceType => 103,
            TarantoolErrorCode::Protocol => 104,
            TarantoolErrorCode::UpsertUniqueSecondaryKey => 105,
            TarantoolErrorCode::WrongIndexRecord => 106,
            TarantoolErrorCode::WrongIndexParts => 107,
            TarantoolErrorCode::WrongIndexOptions => 108,
            TarantoolErrorCode::WrongSchemaVersion => 109,
            TarantoolErrorCode::MemtxMaxTupleSize => 110,
            TarantoolErrorCode::WrongSpaceOptions => 111,
            TarantoolErrorCode::UnsupportedIndexFeature => 112,
            TarantoolErrorCode::ViewIsRo => 113,
            TarantoolErrorCode::NoTransaction => 114,
            TarantoolErrorCode::System => 115,
            TarantoolErrorCode::Loading => 116,
            TarantoolErrorCode::ConnectionToSelf => 117,
            TarantoolErrorCode::KeyPartIsTooLong => 118,
            TarantoolErrorCode::Compression => 119,
            TarantoolErrorCode::CheckpointInProgress => 120,
            TarantoolErrorCode::SubStmtMax => 121,
            TarantoolErrorCode::CommitInSubStmt => 122,
            TarantoolErrorCode::RollbackInSubStmt => 123,
            TarantoolErrorCode::Decompression => 124,
            TarantoolErrorCode::InvalidXlogType => 125,
            TarantoolErrorCode::AlreadyRunning => 126,
            TarantoolErrorCode::IndexFieldCountLimit => 127,
            TarantoolErrorCode::LocalInstanceIDIsReadOnly => 128,
            TarantoolErrorCode::BackupInProgress => 129,
            TarantoolErrorCode::ReadViewAborted => 130,
            TarantoolErrorCode::InvalidIndexFile => 131,
            TarantoolErrorCode::InvalidRunFile => 132,
            TarantoolErrorCode::InvalidVylogFile => 133,
            TarantoolErrorCode::CheckpointRollback => 134,
            TarantoolErrorCode::VyQuotaTimeout => 135,
            TarantoolErrorCode::PartialKey => 136,
            TarantoolErrorCode::TruncateSystemSpace => 137,
            TarantoolErrorCode::LoadModule => 138,
            TarantoolErrorCode::VinylMaxTupleSize => 139,
            TarantoolErrorCode::WrongDdVersion => 140,
            TarantoolErrorCode::WrongSpaceFormat => 141,
            TarantoolErrorCode::CreateSequence => 142,
            TarantoolErrorCode::AlterSequence => 143,
            TarantoolErrorCode::DropSequence => 144,
            TarantoolErrorCode::NoSuchSequence => 145,
            TarantoolErrorCode::SequenceExists => 146,
            TarantoolErrorCode::SequenceOverflow => 147,
            TarantoolErrorCode::NoSuchIndexName => 148,
            TarantoolErrorCode::SpaceFieldIsDuplicate => 149,
            TarantoolErrorCode::CantCreateCollation => 150,
            TarantoolErrorCode::WrongCollationOptions => 151,
            TarantoolErrorCode::NullablePrimary => 152,
            TarantoolErrorCode::NoSuchFieldName => 153,
            TarantoolErrorCode::TransactionYield => 154,
            TarantoolErrorCode::NoSuchGroup => 155,
            TarantoolErrorCode::SqlBindValue => 156,
            TarantoolErrorCode::SqlBindType => 157,
            TarantoolErrorCode::SqlBindParameterMax => 158,
            TarantoolErrorCode::SqlExecute => 159,
            TarantoolErrorCode::Unused => 160,
            TarantoolErrorCode::SqlBindNotFound => 161,
            TarantoolErrorCode::ActionMismatch => 162,
            TarantoolErrorCode::ViewMissingSql => 163,
            TarantoolErrorCode::ForeignKeyConstraint => 164,
            TarantoolErrorCode::NoSuchModule => 165,
            TarantoolErrorCode::NoSuchCollation => 166,
            TarantoolErrorCode::CreateFkConstraint => 167,
            TarantoolErrorCode::DropFkConstraint => 168,
            TarantoolErrorCode::NoSuchConstraint => 169,
            TarantoolErrorCode::ConstraintExists => 170,
            TarantoolErrorCode::SqlTypeMismatch => 171,
            TarantoolErrorCode::RowidOverflow => 172,
            TarantoolErrorCode::DropCollation => 173,
            TarantoolErrorCode::IllegalCollationMix => 174,
            TarantoolErrorCode::SqlNoSuchPragma => 175,
            TarantoolErrorCode::SqlCantResolveField => 176,
            TarantoolErrorCode::IndexExistsInSpace => 177,
            TarantoolErrorCode::InconsistentTypes => 178,
            TarantoolErrorCode::SqlSyntax => 179,
            TarantoolErrorCode::SqlStackOverflow => 180,
            TarantoolErrorCode::SqlSelectWildcard => 181,
            TarantoolErrorCode::SqlStatementEmpty => 182,
            TarantoolErrorCode::SqlKeywordIsReserved => 183,
            TarantoolErrorCode::SqlUnrecognizedSyntax => 184,
            TarantoolErrorCode::SqlUnknownToken => 185,
            TarantoolErrorCode::SqlParserGeneric => 186,
            TarantoolErrorCode::SqlAnalyzeArgument => 187,
            TarantoolErrorCode::SqlColumnCountMax => 188,
            TarantoolErrorCode::HexLiteralMax => 189,
            TarantoolErrorCode::IntLiteralMax => 190,
            TarantoolErrorCode::SqlParserLimit => 191,
            TarantoolErrorCode::IndexDefUnsupported => 192,
            TarantoolErrorCode::CkDefUnsupported => 193,
            TarantoolErrorCode::MultikeyIndexMismatch => 194,
            TarantoolErrorCode::CreateCkConstraint => 195,
            TarantoolErrorCode::CkConstraintFailed => 196,
            TarantoolErrorCode::SqlColumnCount => 197,
            TarantoolErrorCode::FuncIndexFunc => 198,
            TarantoolErrorCode::FuncIndexFormat => 199,
            TarantoolErrorCode::FuncIndexParts => 200,
            TarantoolErrorCode::BootstrapReadonly => 201,
        }
    }

    /// The numeric code of this error kind.
    pub fn to_u32(&self) -> (r: u32)
        ensures
            r == self.code(),
    {
        match self {
            TarantoolErrorCode::Unknown => 0,
            TarantoolErrorCode::IllegalParams => 1,
            TarantoolErrorCode::MemoryIssue => 2,
            TarantoolErrorCode::TupleFound => 3,
            TarantoolErrorCode::TupleNotFound => 4,
            TarantoolErrorCode::Unsupported => 5,
            TarantoolErrorCode::NonMaster => 6,
            TarantoolErrorCode::Readonly => 7,
            TarantoolErrorCode::Injection => 8,
            TarantoolErrorCode::CreateSpace => 9,
            TarantoolErrorCode::SpaceExists => 10,
            TarantoolErrorCode::DropSpace => 11,
            TarantoolErrorCode::AlterSpace => 12,
            TarantoolErrorCode::IndexType => 13,
            TarantoolErrorCode::ModifyIndex => 14,
            TarantoolErrorCode::LastDrop => 15,
            TarantoolErrorCode::TupleFormatLimit => 16,
            TarantoolErrorCode::DropPrimaryKey => 17,
            TarantoolErrorCode::KeyPartType => 18,
            TarantoolErrorCode::ExactMatch => 19,
            TarantoolErrorCode::InvalidMsgpack => 20,
            TarantoolErrorCode::ProcRet => 21,
            TarantoolErrorCode::TupleNotArray => 22,
            TarantoolErrorCode::FieldType => 23,
            TarantoolErrorCode::IndexPartTypeMismatch => 24,
            TarantoolErrorCode::Splice => 25,
            TarantoolErrorCode::UpdateArgType => 26,
            TarantoolErrorCode::FormatMismatchIndexPart => 27,
            TarantoolErrorCode::UnknownUpdateOp => 28,
            TarantoolErrorCode::UpdateField => 29,
            TarantoolErrorCode::FunctionTxActive => 30,
            TarantoolErrorCode::KeyPartCount => 31,
            TarantoolErrorCode::ProcLua => 32,
            TarantoolErrorCode::NoSuchProc => 33,
            TarantoolErrorCode::NoSuchTrigger => 34,
            TarantoolErrorCode::NoSuchIndexID => 35,
            TarantoolErrorCode::NoSuchSpace => 36,
            TarantoolErrorCode::NoSuchFieldNo => 37,
            TarantoolErrorCode::ExactFieldCount => 38,
            TarantoolErrorCode::FieldMissing => 39,
            TarantoolErrorCode::WalIo => 40,
            TarantoolErrorCode::MoreThanOneTuple => 41,
            TarantoolErrorCode::AccessDenied => 42,
            TarantoolErrorCode::CreateUser => 43,
            TarantoolErrorCode::DropUser => 44,
            TarantoolErrorCode::NoSuchUser => 45,
            TarantoolErrorCode::UserExists => 46,
            TarantoolErrorCode::PasswordMismatch => 47,
            TarantoolErrorCode::UnknownRequestType => 48,
            TarantoolErrorCode::UnknownSchemaObject => 49,
            TarantoolErrorCode::CreateFunction => 50,
            TarantoolErrorCode::NoSuchFunction => 51,
            TarantoolErrorCode::FunctionExists => 52,
            TarantoolErrorCode::BeforeReplaceRet => 53,
            TarantoolErrorCode::MultistatementTransaction => 54,
            TarantoolErrorCode::TriggerExists => 55,
            TarantoolErrorCode::UserMax => 56,
            TarantoolErrorCode::NoSuchEngine => 57,
            TarantoolErrorCode::ReloadCfg => 58,
            TarantoolErrorCode::Cfg => 59,
            TarantoolErrorCode::SavepointEmptyTx => 60,
            TarantoolErrorCode::NoSuchSavepoint => 61,
            TarantoolErrorCode::UnknownReplica => 62,
            TarantoolErrorCode::ReplicasetUuidMismatch => 63,
            TarantoolErrorCode::InvalidUuid => 64,
            TarantoolErrorCode::ReplicasetUuidIsRo => 65,
            TarantoolErrorCode::InstanceUuidMismatch => 66,
            TarantoolErrorCode::ReplicaIDIsReserved => 67,
            TarantoolErrorCode::InvalidOrder => 68,
            TarantoolErrorCode::MissingRequestField => 69,
            TarantoolErrorCode::Identifier => 70,
            TarantoolErrorCode::DropFunction => 71,
            TarantoolErrorCode::IteratorType => 72,
            TarantoolErrorCode::ReplicaMax => 73,
            TarantoolErrorCode::InvalidXlog => 74,
            TarantoolErrorCode::InvalidXlogName => 75,
            TarantoolErrorCode::InvalidXlogOrder => 76,
            TarantoolErrorCode::NoConnection => 77,
            TarantoolErrorCode::Timeout => 78,
            TarantoolErrorCode::ActiveTransaction => 79,
            TarantoolErrorCode::CursorNoTransaction => 80,
            TarantoolErrorCode::CrossEngineTransaction => 81,
            TarantoolErrorCode::NoSuchRole => 82,
            TarantoolErrorCode::RoleExists => 83,
            TarantoolErrorCode::CreateRole => 84,
            TarantoolErrorCode::IndexExists => 85,
            TarantoolErrorCode::SessionClosed => 86,
            TarantoolErrorCode::RoleLoop => 87,
            TarantoolErrorCode::Grant => 88,
            TarantoolErrorCode::PrivGranted => 89,
            TarantoolErrorCode::RoleGranted => 90,
            TarantoolErrorCode::PrivNotGranted => 91,
            TarantoolErrorCode::RoleNotGranted => 92,
            TarantoolErrorCode::MissingSnapshot => 93,
            TarantoolErrorCode::CantUpdatePrimaryKey => 94,
            TarantoolErrorCode::UpdateIntegerOverflow => 95,
            TarantoolErrorCode::GuestUserPassword => 96,
            TarantoolErrorCode::TransactionConflict => 97,
            TarantoolErrorCode::UnsupportedPriv => 98,
            TarantoolErrorCode::LoadFunction => 99,
            TarantoolErrorCode::FunctionLanguage => 100,
            TarantoolErrorCode::RtreeRect => 101,
            TarantoolErrorCode::ProcC => 102,
            TarantoolErrorCode::UnknownRtreeIndexDistanceType => 103,
            TarantoolErrorCode::Protocol => 104,
            TarantoolErrorCode::UpsertUniqueSecondaryKey => 105,
            TarantoolErrorCode::WrongIndexRecord => 106,
            TarantoolErrorCode::WrongIndexParts => 107,
            TarantoolErrorCode::WrongIndexOptions => 108,
            TarantoolErrorCode::WrongSchemaVersion => 109,
            TarantoolErrorCode::MemtxMaxTupleSize => 110,
            TarantoolErrorCode::WrongSpaceOptions => 111,
            TarantoolErrorCode::UnsupportedIndexFeature => 112,
            TarantoolErrorCode::ViewIsRo => 113,
            TarantoolErrorCode::NoTransaction => 114,
            TarantoolErrorCode::System => 115,
            TarantoolErrorCode::Loading => 116,
            TarantoolErrorCode::ConnectionToSelf => 117,
            TarantoolErrorCode::KeyPartIsTooLong => 118,
            TarantoolErrorCode::Compression => 119,
            TarantoolErrorCode::CheckpointInProgress => 120,
            TarantoolErrorCode::SubStmtMax => 121,
            TarantoolErrorCode::CommitInSubStmt => 122,
            TarantoolErrorCode::RollbackInSubStmt => 123,
            TarantoolErrorCode::Decompression => 124,
            TarantoolErrorCode::InvalidXlogType => 125,
            TarantoolErrorCode::AlreadyRunning => 126,
            TarantoolErrorCode::IndexFieldCountLimit => 127,
            TarantoolErrorCode::LocalInstanceIDIsReadOnly => 128,
            TarantoolErrorCode::BackupInProgress => 129,
            TarantoolErrorCode::ReadViewAborted => 130,
            TarantoolErrorCode::InvalidIndexFile => 131,
            TarantoolErrorCode::InvalidRunFile => 132,
            TarantoolErrorCode::InvalidVylogFile => 133,
            TarantoolErrorCode::CheckpointRollback => 134,
            TarantoolErrorCode::VyQuotaTimeout => 135,
            TarantoolErrorCode::PartialKey => 136,
            TarantoolErrorCode::TruncateSystemSpace => 137,
            TarantoolErrorCode::LoadModule => 138,
            TarantoolErrorCode::VinylMaxTupleSize => 139,
            TarantoolErrorCode::WrongDdVersion => 140,
            TarantoolErrorCode::WrongSpaceFormat => 141,
            TarantoolErrorCode::CreateSequence => 142,
            TarantoolErrorCode::AlterSequence => 143,
            TarantoolErrorCode::DropSequence => 144,
            TarantoolErrorCode::NoSuchSequence => 145,
            TarantoolErrorCode::SequenceExists => 146,
            TarantoolErrorCode::SequenceOverflow => 147,
            TarantoolErrorCode::NoSuchIndexName => 148,
            TarantoolErrorCode::SpaceFieldIsDuplicate => 149,
            TarantoolErrorCode::CantCreateCollation => 150,
            TarantoolErrorCode::WrongCollationOptions => 151,
            TarantoolErrorCode::NullablePrimary => 152,
            TarantoolErrorCode::NoSuchFieldName => 153,
            TarantoolErrorCode::TransactionYield => 154,
            TarantoolErrorCode::NoSuchGroup => 155,
            TarantoolErrorCode::SqlBindValue => 156,
            TarantoolErrorCode::SqlBindType => 157,
            TarantoolErrorCode::SqlBindParameterMax => 158,
            TarantoolErrorCode::SqlExecute => 159,
            TarantoolErrorCode::Unused => 160,
            TarantoolErrorCode::SqlBindNotFound => 161,
            TarantoolErrorCode::ActionMismatch => 162,
            TarantoolErrorCode::ViewMissingSql => 163,
            TarantoolErrorCode::ForeignKeyConstraint => 164,
            TarantoolErrorCode::NoSuchModule => 165,
            TarantoolErrorCode::NoSuchCollation => 166,
            TarantoolErrorCode::CreateFkConstraint => 167,
            TarantoolErrorCode::DropFkConstraint => 168,
            TarantoolErrorCode::NoSuchConstraint => 169,
            TarantoolErrorCode::ConstraintExists => 170,
            TarantoolErrorCode::SqlTypeMismatch => 171,
            TarantoolErrorCode::RowidOverflow => 172,
            TarantoolErrorCode::DropCollation => 173,
            TarantoolErrorCode::IllegalCollationMix => 174,
            TarantoolErrorCode::SqlNoSuchPragma => 175,
            TarantoolErrorCode::SqlCantResolveField => 176,
            TarantoolErrorCode::IndexExistsInSpace => 177,
            TarantoolErrorCode::InconsistentTypes => 178,
            TarantoolErrorCode::SqlSyntax => 179,
            TarantoolErrorCode::SqlStackOverflow => 180,
            TarantoolErrorCode::SqlSelectWildcard => 181,
            TarantoolErrorCode::SqlStatementEmpty => 182,
            TarantoolErrorCode::SqlKeywordIsReserved => 183,
            TarantoolErrorCode::SqlUnrecognizedSyntax => 184,
            TarantoolErrorCode::SqlUnknownToken => 185,
            TarantoolErrorCode::SqlParserGeneric => 186,
            TarantoolErrorCode::SqlAnalyzeArgument => 187,
            TarantoolErrorCode::SqlColumnCountMax => 188,
            TarantoolErrorCode::HexLiteralMax => 189,
            TarantoolErrorCode::IntLiteralMax => 190,
            TarantoolErrorCode::SqlParserLimit => 191,
            TarantoolErrorCode::IndexDefUnsupported => 192,
            TarantoolErrorCode::CkDefUnsupported => 193,
            TarantoolErrorCode::MultikeyIndexMismatch => 194,
            TarantoolErrorCode::CreateCkConstraint => 195,
            TarantoolErrorCode::CkConstraintFailed => 196,
            TarantoolErrorCode::SqlColumnCount => 197,
            TarantoolErrorCode::FuncIndexFunc => 198,
            TarantoolErrorCode::FuncIndexFormat => 199,
            TarantoolErrorCode::FuncIndexParts => 200,
            TarantoolErrorCode::BootstrapReadonly => 201,
        }
    }

    /// The error kind with numeric code `n`, if there is one.
    pub fn from_u32(n: u32) -> (r: Option<TarantoolErrorCode>)
        ensures
            r is None <==> n >= KNOWN_CODES,
            r matches Some(e) ==> e.code() == n,
    {
        match n {
            0 => Some(TarantoolErrorCode::Unknown),
            1 => Some(TarantoolErrorCode::IllegalParams),
            2 => Some(TarantoolErrorCode::MemoryIssue),
            3 => Some(TarantoolErrorCode::TupleFound),
            4 => Some(TarantoolErrorCode::TupleNotFound),
            5 => Some(TarantoolErrorCode::Unsupported),
            6 => Some(TarantoolErrorCode::NonMaster),
            7 => Some(TarantoolErrorCode::Readonly),
            8 => Some(TarantoolErrorCode::Injection),
            9 => Some(TarantoolErrorCode::CreateSpace),
            10 => Some(TarantoolErrorCode::SpaceExists),
            11 => Some(TarantoolErrorCode::DropSpace),
            12 => Some(TarantoolErrorCode::AlterSpace),
            13 => Some(TarantoolErrorCode::IndexType),
            14 => Some(TarantoolErrorCode::ModifyIndex),
            15 => Some(TarantoolErrorCode::LastDrop),
            16 => Some(TarantoolErrorCode::TupleFormatLimit),
            17 => Some(TarantoolErrorCode::DropPrimaryKey),
            18 => Some(TarantoolErrorCode::KeyPartType),
            19 => Some(TarantoolErrorCode::ExactMatch),
            20 => Some(TarantoolErrorCode::InvalidMsgpack),
            21 => Some(TarantoolErrorCode::ProcRet),
            22 => Some(TarantoolErrorCode::TupleNotArray),
            23 => Some(TarantoolErrorCode::FieldType),
            24 => Some(TarantoolErrorCode::IndexPartTypeMismatch),
            25 => Some(TarantoolErrorCode::Splice),
            26 => Some(TarantoolErrorCode::UpdateArgType),
            27 => Some(TarantoolErrorCode::FormatMismatchIndexPart),
            28 => Some(TarantoolErrorCode::UnknownUpdateOp),
            29 => Some(TarantoolErrorCode::UpdateField),
            30 => Some(TarantoolErrorCode::FunctionTxActive),
            31 => Some(TarantoolErrorCode::KeyPartCount),
            32 => Some(TarantoolErrorCode::ProcLua),
            33 => Some(TarantoolErrorCode::NoSuchProc),
            34 => Some(TarantoolErrorCode::NoSuchTrigger),
            35 => Some(TarantoolErrorCode::NoSuchIndexID),
            36 => Some(TarantoolErrorCode::NoSuchSpace),
            37 => Some(TarantoolErrorCode::NoSuchFieldNo),
            38 => Some(TarantoolErrorCode::ExactFieldCount),
            39 => Some(TarantoolErrorCode::FieldMissing),
            40 => Some(TarantoolErrorCode::WalIo),
            41 => Some(TarantoolErrorCode::MoreThanOneTuple),
            42 => Some(TarantoolErrorCode::AccessDenied),
            43 => Some(TarantoolErrorCode::CreateUser),
            44 => Some(TarantoolErrorCode::DropUser),
            45 => Some(TarantoolErrorCode::NoSuchUser),
            46 => Some(TarantoolErrorCode::UserExists),
            47 => Some(TarantoolErrorCode::PasswordMismatch),
            48 => Some(TarantoolErrorCode::UnknownRequestType),
            49 => Some(TarantoolErrorCode::UnknownSchemaObject),
            50 => Some(TarantoolErrorCode::CreateFunction),
            51 => Some(TarantoolErrorCode::NoSuchFunction),
            52 => Some(TarantoolErrorCode::FunctionExists),
            53 => Some(TarantoolErrorCode::BeforeReplaceRet),
            54 => Some(TarantoolErrorCode::MultistatementTransaction),
            55 => Some(TarantoolErrorCode::TriggerExists),
            56 => Some(TarantoolErrorCode::UserMax),
            57 => Some(TarantoolErrorCode::NoSuchEngine),
            58 => Some(TarantoolErrorCode::ReloadCfg),
            59 => Some(TarantoolErrorCode::Cfg),
            60 => Some(TarantoolErrorCode::SavepointEmptyTx),
            61 => Some(TarantoolErrorCode::NoSuchSavepoint),
            62 => Some(TarantoolErrorCode::UnknownReplica),
            63 => Some(TarantoolErrorCode::ReplicasetUuidMismatch),
            64 => Some(TarantoolErrorCode::InvalidUuid),
            65 => Some(TarantoolErrorCode::ReplicasetUuidIsRo),
            66 => Some(TarantoolErrorCode::InstanceUuidMismatch),
            67 => Some(TarantoolErrorCode::ReplicaIDIsReserved),
            68 => Some(TarantoolErrorCode::InvalidOrder),
            69 => Some(TarantoolErrorCode::MissingRequestField),
            70 => Some(TarantoolErrorCode::Identifier),
            71 => Some(TarantoolErrorCode::DropFunction),
            72 => Some(TarantoolErrorCode::IteratorType),
            73 => Some(TarantoolErrorCode::ReplicaMax),
            74 => Some(TarantoolErrorCode::InvalidXlog),
            75 => Some(TarantoolErrorCode::InvalidXlogName),
            76 => Some(TarantoolErrorCode::InvalidXlogOrder),
            77 => Some(TarantoolErrorCode::NoConnection),
            78 => Some(TarantoolErrorCode::Timeout),
            79 => Some(TarantoolErrorCode::ActiveTransaction),
            80 => Some(TarantoolErrorCode::CursorNoTransaction),
            81 => Some(TarantoolErrorCode::CrossEngineTransaction),
            82 => Some(TarantoolErrorCode::NoSuchRole),
            83 => Some(TarantoolErrorCode::RoleExists),
            84 => Some(TarantoolErrorCode::CreateRole),
            85 => Some(TarantoolErrorCode::IndexExists),
            86 => Some(TarantoolErrorCode::SessionClosed),
            87 => Some(TarantoolErrorCode::RoleLoop),
            88 => Some(TarantoolErrorCode::Grant),
            89 => Some(TarantoolErrorCode::PrivGranted),
            90 => Some(TarantoolErrorCode::RoleGranted),
            91 => Some(TarantoolErrorCode::PrivNotGranted),
            92 => Some(TarantoolErrorCode::RoleNotGranted),
            93 => Some(TarantoolErrorCode::MissingSnapshot),
            94 => Some(TarantoolErrorCode::CantUpdatePrimaryKey),
            95 => Some(TarantoolErrorCode::UpdateIntegerOverflow),
            96 => Some(TarantoolErrorCode::GuestUserPassword),
            97 => Some(TarantoolErrorCode::TransactionConflict),
            98 => Some(TarantoolErrorCode::UnsupportedPriv),
            99 => Some(TarantoolErrorCode::LoadFunction),
            100 => Some(TarantoolErrorCode::FunctionLanguage),
            101 => Some(TarantoolErrorCode::RtreeRect),
            102 => Some(TarantoolErrorCode::ProcC),
            103 => Some(TarantoolErrorCode::UnknownRtreeIndexDistanceType),
            104 => Some(TarantoolErrorCode::Protocol),
            105 => Some(TarantoolErrorCode::UpsertUniqueSecondaryKey),
            106 => Some(TarantoolErrorCode::WrongIndexRecord),
            107 => Some(TarantoolErrorCode::WrongIndexParts),
            108 => Some(TarantoolErrorCode::WrongIndexOptions),
            109 => Some(TarantoolErrorCode::WrongSchemaVersion),
            110 => Some(TarantoolErrorCode::MemtxMaxTupleSize),
            111 => Some(TarantoolErrorCode::WrongSpaceOptions),
            112 => Some(TarantoolErrorCode::UnsupportedIndexFeature),
            113 => Some(TarantoolErrorCode::ViewIsRo),
            114 => Some(TarantoolErrorCode::NoTransaction),
            115 => Some(TarantoolErrorCode::System),
            116 => Some(TarantoolErrorCode::Loading),
            117 => Some(TarantoolErrorCode::ConnectionToSelf),
            118 => Some(TarantoolErrorCode::KeyPartIsTooLong),
            119 => Some(TarantoolErrorCode::Compression),
            120 => Some(TarantoolErrorCode::CheckpointInProgress),
            121 => Some(TarantoolErrorCode::SubStmtMax),
            122 => Some(TarantoolErrorCode::CommitInSubStmt),
            123 => Some(TarantoolErrorCode::RollbackInSubStmt),
            124 => Some(TarantoolErrorCode::Decompression),
            125 => Some(TarantoolErrorCode::InvalidXlogType),
            126 => Some(TarantoolErrorCode::AlreadyRunning),
            127 => Some(TarantoolErrorCode::IndexFieldCountLimit),
            128 => Some(TarantoolErrorCode::LocalInstanceIDIsReadOnly),
            129 => Some(TarantoolErrorCode::BackupInProgress),
            130 => Some(TarantoolErrorCode::ReadViewAborted),
            131 => Some(TarantoolErrorCode::InvalidIndexFile),
            132 => Some(TarantoolErrorCode::InvalidRunFile),
            133 => Some(TarantoolErrorCode::InvalidVylogFile),
            134 => Some(TarantoolErrorCode::CheckpointRollback),
            135 => Some(TarantoolErrorCode::VyQuotaTimeout),
            136 => Some(TarantoolErrorCode::PartialKey),
            137 => Some(TarantoolErrorCode::TruncateSystemSpace),
            138 => Some(TarantoolErrorCode::LoadModule),
            139 => Some(TarantoolErrorCode::VinylMaxTupleSize),
            140 => Some(TarantoolErrorCode::WrongDdVersion),
            141 => Some(TarantoolErrorCode::WrongSpaceFormat),
            142 => Some(TarantoolErrorCode::CreateSequence),
            143 => Some(TarantoolErrorCode::AlterSequence),
            144 => Some(TarantoolErrorCode::DropSequence),
            145 => Some(TarantoolErrorCode::NoSuchSequence),
            146 => Some(TarantoolErrorCode::SequenceExists),
            147 => Some(TarantoolErrorCode::SequenceOverflow),
            148 => Some(TarantoolErrorCode::NoSuchIndexName),
            149 => Some(TarantoolErrorCode::SpaceFieldIsDuplicate),
            150 => Some(TarantoolErrorCode::CantCreateCollation),
            151 => Some(TarantoolErrorCode::WrongCollationOptions),
            152 => Some(TarantoolErrorCode::NullablePrimary),
            153 => Some(TarantoolErrorCode::NoSuchFieldName),
            154 => Some(TarantoolErrorCode::TransactionYield),
            155 => Some(TarantoolErrorCode::NoSuchGroup),
            156 => Some(TarantoolErrorCode::SqlBindValue),
            157 => Some(TarantoolErrorCode::SqlBindType),
            158 => Some(TarantoolErrorCode::SqlBindParameterMax),
            159 => Some(TarantoolErrorCode::SqlExecute),
            160 => Some(TarantoolErrorCode::Unused),
            161 => Some(TarantoolErrorCode::SqlBindNotFound),
            162 => Some(TarantoolErrorCode::ActionMismatch),
            163 => Some(TarantoolErrorCode::ViewMissingSql),
            164 => Some(TarantoolErrorCode::ForeignKeyConstraint),
            165 => Some(TarantoolErrorCode::NoSuchModule),
            166 => Some(TarantoolErrorCode::NoSuchCollation),
            167 => Some(TarantoolErrorCode::CreateFkConstraint),
            168 => Some(TarantoolErrorCode::DropFkConstraint),
            169 => Some(TarantoolErrorCode::NoSuchConstraint),
            170 => Some(TarantoolErrorCode::ConstraintExists),
            171 => Some(TarantoolErrorCode::SqlTypeMismatch),
            172 => Some(TarantoolErrorCode::RowidOverflow),
            173 => Some(TarantoolErrorCode::DropCollation),
            174 => Some(TarantoolErrorCode::IllegalCollationMix),
            175 => Some(TarantoolErrorCode::SqlNoSuchPragma),
            176 => Some(TarantoolErrorCode::SqlCantResolveField),
            177 => Some(TarantoolErrorCode::IndexExistsInSpace),
            178 => Some(TarantoolErrorCode::InconsistentTypes),
            179 => Some(TarantoolErrorCode::SqlSyntax),
            180 => Some(TarantoolErrorCode::SqlStackOverflow),
            181 => Some(TarantoolErrorCode::SqlSelectWildcard),
            182 => Some(TarantoolErrorCode::SqlStatementEmpty),
            183 => Some(TarantoolErrorCode::SqlKeywordIsReserved),
            184 => Some(TarantoolErrorCode::SqlUnrecognizedSyntax),
            185 => Some(TarantoolErrorCode::SqlUnknownToken),
            186 => Some(TarantoolErrorCode::SqlParserGeneric),
            187 => Some(TarantoolErrorCode::SqlAnalyzeArgument),
            188 => Some(TarantoolErrorCode::SqlColumnCountMax),
            189 => Some(TarantoolErrorCode::HexLiteralMax),
            190 => Some(TarantoolErrorCode::IntLiteralMax),
            191 => Some(TarantoolErrorCode::SqlParserLimit),
            192 => Some(TarantoolErrorCode::IndexDefUnsupported),
            193 => Some(TarantoolErrorCode::CkDefUnsupported),
            194 => Some(TarantoolErrorCode::MultikeyIndexMismatch),
            195 => Some(TarantoolErrorCode::CreateCkConstraint),
            196 => Some(TarantoolErrorCode::CkConstraintFailed),
            197 => Some(TarantoolErrorCode::SqlColumnCount),
            198 => Some(TarantoolErrorCode::FuncIndexFunc),
            199 => Some(TarantoolErrorCode::FuncIndexFormat),
            200 => Some(TarantoolErrorCode::FuncIndexParts),
            201 => Some(TarantoolErrorCode::BootstrapReadonly),
            _ => None,
        }
    }
}

/// An error that the database reported: its kind, its message and the name
/// of its type.
pub struct TarantoolError {
    code: TarantoolErrorCode,
    message: String,
    error_type: String,
}

impl TarantoolError {
    /// The kind of the error.
    pub closed spec fn kind(&self) -> TarantoolErrorCode {
        self.code
    }

    /// The message of the error.
    pub closed spec fn text(&self) -> Seq<char> {
        self.message@
    }

    /// The name of the error's type, e.g. "ClientError".
    pub closed spec fn kind_name(&self) -> Seq<char> {
        self.error_type@
    }

    /// The error made from what the last-error slot holds when an error is
    /// set: its numeric code, of which an unknown one becomes `Unknown`, its
    /// message and the name of its type.
    pub fn last(code: u32, message: String, error_type: String) -> (r: TarantoolError)
        ensures
            code < KNOWN_CODES ==> r.kind().code() == code,
            code >= KNOWN_CODES ==> r.kind() == TarantoolErrorCode::Unknown,
            r.text() == message@,
            r.kind_name() == error_type@,
    {
        let code = match TarantoolErrorCode::from_u32(code) {
            Some(c) => c,
            None => TarantoolErrorCode::Unknown,
        };
        TarantoolError { code, message, error_type }
    }

    /// What the last-error slot holds: `Ok` when no error is set, and else
    /// the error made from its numeric code, message and type name as `last`
    /// makes it.
    pub fn maybe_last(slot: Option<(u32, String, String)>) -> (r: Result<(), TarantoolError>)
        ensures
            slot is None <==> r is Ok,
            slot matches Some((code, message, error_type)) ==> r matches Err(e) && (code
                < KNOWN_CODES ==> e.kind().code() == code) && (code >= KNOWN_CODES ==> e.kind()
                == TarantoolErrorCode::Unknown) && e.text() == message@ && e.kind_name()
                == error_type@,
    {
        match slot {
            None => Ok(()),
            Some((code, message, error_type)) => Err(
                TarantoolError::last(code, message, error_type),
            ),
        }
    }

    /// The name of the error's type, e.g. "ClientError" or "SocketError".
    pub fn error_type(&self) -> (r: String)
        ensures
            r@ == self.kind_name(),
    {
        self.error_type.clone()
    }

    /// The kind of the error.
    pub fn error_code(&self) -> (r: TarantoolErrorCode)
        ensures
            r == self.kind(),
    {
        self.code
    }

    /// The message of the error.
    pub fn message(&self) -> (r: &str)
        ensures
            r@ == self.text(),
    {
        self.message.as_str()
    }
}

} // verus!
