//! The data carried for one log event: `Metadata` and `Record`.

use vstd::prelude::*;

use crate::level::Level;

verus! {

/// Metadata attached to a record: its severity and the logical source name
/// (target) it was emitted under.
#[derive(Clone, Eq, PartialEq, Hash, Debug)]
pub struct Metadata {
    pub level: Level,
    pub target: String,
}

impl Metadata {
    /// A metadata value with the given severity and target.
    pub fn new(level: Level, target: String) -> (m: Metadata)
        ensures
            m.level == level,
            m.target == target,
    {
        Metadata { level, target }
    }

    /// The default metadata: severity `Info`, empty target.
    pub fn empty() -> (m: Metadata)
        ensures
            m.level == Level::Info,
            m.target@ == Seq::<char>::empty(),
    {
        proof {
            reveal_strlit("");
            assert(""@ =~= Seq::<char>::empty());
        }
        Metadata::new(Level::Info, "".to_owned())
    }

    /// Replaces the severity, leaving the target unchanged.
    pub fn level(&mut self, level: Level)
        ensures
            final(self).level == level,
            final(self).target == old(self).target,
    {
        self.level = level;
    }

    /// Replaces the target, leaving the severity unchanged.
    pub fn target(&mut self, target: String)
        ensures
            final(self).target == target,
            final(self).level == old(self).level,
    {
        self.target = target;
    }
}

/// One fully formed log event: metadata, the formatted message, and the
/// call site's location, where it was captured. A record is a plain value:
/// once constructed it is moved into the hand-off queue and never aliased.
#[derive(Clone, Debug)]
pub struct Record {
    pub metadata: Metadata,
    pub message: String,
    pub module: Option<String>,
    pub file: Option<String>,
    pub line: Option<u32>,
}

impl Record {
    /// A record built from all of its parts.
    pub fn new(
        metadata: Metadata,
        message: String,
        module: Option<String>,
        file: Option<String>,
        line: Option<u32>,
    ) -> (r: Record)
        ensures
            r.metadata == metadata,
            r.message == message,
            r.module == module,
            r.file == file,
            r.line == line,
    {
        Record { metadata, message, module, file, line }
    }

    /// A blank record: default metadata, empty message, no location.
    pub fn empty() -> (r: Record)
        ensures
            r.metadata.level == Level::Info,
            r.metadata.target@ == Seq::<char>::empty(),
            r.message@ == Seq::<char>::empty(),
            r.module is None,
            r.file is None,
            r.line is None,
    {
        proof {
            reveal_strlit("");
            assert(""@ =~= Seq::<char>::empty());
        }
        Record::new(Metadata::empty(), "".to_owned(), None, None, None)
    }

    /// Replaces the metadata, leaving every other field unchanged.
    pub fn metadata(&mut self, metadata: Metadata)
        ensures
            final(self).metadata == metadata,
            final(self).message == old(self).message,
            final(self).module == old(self).module,
            final(self).file == old(self).file,
            final(self).line == old(self).line,
    {
        self.metadata = metadata;
    }

    /// Replaces the message, leaving every other field unchanged.
    pub fn message(&mut self, message: String)
        ensures
            final(self).message == message,
            final(self).metadata == old(self).metadata,
            final(self).module == old(self).module,
            final(self).file == old(self).file,
            final(self).line == old(self).line,
    {
        self.message = message;
    }

    /// Replaces the module path, leaving every other field unchanged.
    pub fn module(&mut self, module: Option<String>)
        ensures
            final(self).module == module,
            final(self).metadata == old(self).metadata,
            final(self).message == old(self).message,
            final(self).file == old(self).file,
            final(self).line == old(self).line,
    {
        self.module = module;
    }

    /// Replaces the source file, leaving every other field unchanged.
    pub fn file(&mut self, file: Option<String>)
        ensures
            final(self).file == file,
            final(self).metadata == old(self).metadata,
            final(self).message == old(self).message,
            final(self).module == old(self).module,
            final(self).line == old(self).line,
    {
        self.file = file;
    }

    /// Replaces the source line, leaving every other field unchanged.
    pub fn line(&mut self, line: Option<u32>)
        ensures
            final(self).line == line,
            final(self).metadata == old(self).metadata,
            final(self).message == old(self).message,
            final(self).module == old(self).module,
            final(self).file == old(self).file,
    {
        self.line = line;
    }
}

} // verus!
