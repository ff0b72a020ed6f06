//! What the library asks its caller to do in the outside world, and what the
//! caller reports back.

use vstd::prelude::*;

verus! {

/// An operating-system operation that failed.
pub struct IoFailure {
    /// The failure was "not found" (`std::io::ErrorKind::NotFound`).
    pub not_found: bool,
    /// The failure's display text.
    pub message: String,
}

/// The mathematical value of an `IoFailure`.
pub struct FailureModel {
    pub not_found: bool,
    pub message: Seq<char>,
}

impl View for IoFailure {
    type V = FailureModel;

    open spec fn view(&self) -> FailureModel {
        FailureModel { not_found: self.not_found, message: self.message@ }
    }
}

/// One operation for the caller to perform.
pub enum Effect {
    /// Resolve this path to an absolute, normalised path of an existing file
    /// (`std::fs::canonicalize`); answer with `Reply::Resolved`.
    Resolve(String),
    /// Read this file as text; answer with `Reply::Read`.
    Read(String),
    /// Create this directory and its parents; answer with `Reply::Done`.
    CreateDir(String),
    /// Write the text (second) to the file (first); answer with `Reply::Done`.
    Write(String, String),
    /// Remove this file; answer with `Reply::Done`.
    Remove(String),
    /// Tell whether this path is an existing regular file; answer with `Reply::IsFile`.
    CheckFile(String),
    /// Start this program (first element) with these arguments (the rest),
    /// without a shell and without waiting for it; answer with `Reply::Done`.
    Launch(Vec<String>),
    /// Stop, with this process exit code.
    Exit(i32),
}

/// The mathematical value of an `Effect`.
pub enum EffectModel {
    Resolve(Seq<char>),
    Read(Seq<char>),
    CreateDir(Seq<char>),
    Write(Seq<char>, Seq<char>),
    Remove(Seq<char>),
    CheckFile(Seq<char>),
    Launch(Seq<Seq<char>>),
    Exit(i32),
}

impl View for Effect {
    type V = EffectModel;

    open spec fn view(&self) -> EffectModel {
        match self {
            Effect::Resolve(p) => EffectModel::Resolve(p@),
            Effect::Read(p) => EffectModel::Read(p@),
            Effect::CreateDir(p) => EffectModel::CreateDir(p@),
            Effect::Write(p, t) => EffectModel::Write(p@, t@),
            Effect::Remove(p) => EffectModel::Remove(p@),
            Effect::CheckFile(p) => EffectModel::CheckFile(p@),
            Effect::Launch(a) => EffectModel::Launch(a.deep_view()),
            Effect::Exit(c) => EffectModel::Exit(*c),
        }
    }
}

impl EffectModel {
    /// The effect changes what is stored on disk.
    pub open spec fn changes_store(self) -> bool {
        ||| self is CreateDir
        ||| self is Write
        ||| self is Remove
    }
}

/// What the caller reports after performing an `Effect`.
pub enum Reply {
    /// The resolved path, or `None` where the path does not exist or cannot be resolved.
    Resolved(Option<String>),
    /// The text read, or the failure.
    Read(Result<String, IoFailure>),
    /// Success, or the failure, of creating, writing, removing or launching.
    Done(Result<(), IoFailure>),
    /// Whether the path is an existing regular file.
    IsFile(bool),
}

/// The mathematical value of a `Reply`.
pub enum ReplyModel {
    Resolved(Option<Seq<char>>),
    Read(Result<Seq<char>, FailureModel>),
    Done(Result<(), FailureModel>),
    IsFile(bool),
}

/// The value of the outcome of a read.
pub open spec fn read_model(r: Result<String, IoFailure>) -> Result<Seq<char>, FailureModel> {
    match r {
        Ok(t) => Ok(t@),
        Err(f) => Err(f@),
    }
}

/// The value of the outcome of an operation that returns nothing.
pub open spec fn done_model(r: Result<(), IoFailure>) -> Result<(), FailureModel> {
    match r {
        Ok(()) => Ok(()),
        Err(f) => Err(f@),
    }
}

impl View for Reply {
    type V = ReplyModel;

    open spec fn view(&self) -> ReplyModel {
        match self {
            Reply::Resolved(p) => ReplyModel::Resolved(p.deep_view()),
            Reply::Read(r) => ReplyModel::Read(read_model(*r)),
            Reply::Done(r) => ReplyModel::Done(done_model(*r)),
            Reply::IsFile(b) => ReplyModel::IsFile(*b),
        }
    }
}

/// The value of a result that carries a string either way.
pub open spec fn text_result(r: Result<String, String>) -> Result<Seq<char>, Seq<char>> {
    match r {
        Ok(t) => Ok(t@),
        Err(e) => Err(e@),
    }
}

/// The value of a result that carries nothing or an error text.
pub open spec fn unit_result(r: Result<(), String>) -> Result<(), Seq<char>> {
    match r {
        Ok(()) => Ok(()),
        Err(e) => Err(e@),
    }
}

/// The value of a result that carries an effect or an error text.
pub open spec fn effect_result(r: Result<Effect, String>) -> Result<EffectModel, Seq<char>> {
    match r {
        Ok(e) => Ok(e@),
        Err(m) => Err(m@),
    }
}

} // verus!
