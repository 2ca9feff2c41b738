//! The files of the settings store, the requests that the store makes of
//! the file system, and a model of what those requests do.
//!
//! The store itself never touches a file. It says what is to be done, as a
//! [`FileOp`], and is told how it went. The model, [`Disk`], states what
//! each request does to the two files that the store ever names, and what
//! a reader may find while a request is under way. The laws at the end of
//! this file are proved over that model.

use vstd::prelude::*;

verus! {

/// The two files of the store. Both stand in the directory
/// `<configuration directory>/synapse`.
#[derive(Debug, Clone, Copy, PartialEq, Eq, Structural)]
pub enum StoreFile {
    /// The settings file itself.
    Settings,
    /// Its sibling, in which a new version is written out before it takes
    /// the settings file's place.
    Temp,
}

/// The name of a file of the store within the store's directory.
pub open spec fn file_name(file: StoreFile) -> Seq<char> {
    match file {
        StoreFile::Settings => "settings.json"@,
        StoreFile::Temp => "settings.tmp"@,
    }
}

/// The two files have different names: they share the stem `settings` and
/// differ in the extension.
pub proof fn lemma_file_names_differ()
    ensures
        file_name(StoreFile::Settings) != file_name(StoreFile::Temp),
        file_name(StoreFile::Settings) == "settings"@ + ".json"@,
        file_name(StoreFile::Temp) == "settings"@ + ".tmp"@,
{
    reveal_strlit("settings.json");
    reveal_strlit("settings.tmp");
    reveal_strlit("settings");
    reveal_strlit(".json");
    reveal_strlit(".tmp");
    assert("settings.json"@.len() != "settings.tmp"@.len());
    assert("settings.json"@ =~= "settings"@ + ".json"@);
    assert("settings.tmp"@ =~= "settings"@ + ".tmp"@);
}

/// The name of the store's directory within the configuration directory.
pub fn app_dir_name() -> (name: &'static str)
    ensures
        name@ == "synapse"@,
{
    "synapse"
}

impl StoreFile {
    /// The name of the file within the store's directory.
    pub fn file_name(&self) -> (name: &'static str)
        ensures
            name@ == file_name(*self),
    {
        match self {
            StoreFile::Settings => "settings.json",
            StoreFile::Temp => "settings.tmp",
        }
    }

    /// The other file of the store.
    pub open spec fn other(self) -> StoreFile {
        match self {
            StoreFile::Settings => StoreFile::Temp,
            StoreFile::Temp => StoreFile::Settings,
        }
    }
}

/// A request that the store makes of the file system.
#[derive(Debug, PartialEq, Eq)]
pub enum FileOp {
    /// Create the store's directory, with every directory above it that is
    /// missing.
    CreateDirectory,
    /// Read the whole of a file as text, or find that it does not exist.
    Read(StoreFile),
    /// Write `content` to `file`, creating or replacing it.
    Write { file: StoreFile, content: String },
    /// Give the file `from` the name of `to`, replacing `to` in one step.
    Rename { from: StoreFile, to: StoreFile },
}

/// A request as plain values.
pub enum FileOpView {
    CreateDirectory,
    Read(StoreFile),
    Write { file: StoreFile, content: Seq<char> },
    Rename { from: StoreFile, to: StoreFile },
}

impl View for FileOp {
    type V = FileOpView;

    open spec fn view(&self) -> FileOpView {
        match self {
            FileOp::CreateDirectory => FileOpView::CreateDirectory,
            FileOp::Read(file) => FileOpView::Read(*file),
            FileOp::Write { file, content } => FileOpView::Write { file: *file, content: content@ },
            FileOp::Rename { from, to } => FileOpView::Rename { from: *from, to: *to },
        }
    }
}

impl FileOpView {
    /// Whether the request leaves every file as it is.
    pub open spec fn is_read_only(self) -> bool {
        self is CreateDirectory || self is Read
    }
}

/// What the two files of the store hold: for each, its text, or `None` if
/// it does not exist.
pub struct Disk {
    pub settings: Option<Seq<char>>,
    pub temp: Option<Seq<char>>,
}

impl Disk {
    /// What `file` holds.
    pub open spec fn read(self, file: StoreFile) -> Option<Seq<char>> {
        match file {
            StoreFile::Settings => self.settings,
            StoreFile::Temp => self.temp,
        }
    }

    /// The disk with `file` holding `content` and the other file untouched.
    pub open spec fn put(self, file: StoreFile, content: Option<Seq<char>>) -> Disk {
        match file {
            StoreFile::Settings => Disk { settings: content, temp: self.temp },
            StoreFile::Temp => Disk { settings: self.settings, temp: content },
        }
    }

    /// The disk once `op` has been carried out in full. A rename of a file
    /// that does not exist changes nothing.
    pub open spec fn after(self, op: FileOpView) -> Disk {
        match op {
            FileOpView::CreateDirectory => self,
            FileOpView::Read(_) => self,
            FileOpView::Write { file, content } => self.put(file, Some(content)),
            FileOpView::Rename { from, to } => {
                if from == to || self.read(from) is None {
                    self
                } else {
                    self.put(to, self.read(from)).put(from, None)
                }
            },
        }
    }

    /// Whether `seen` is a state in which the disk may be found while `op`
    /// is under way, or in which it may be left if `op` fails or the process
    /// is stopped in the middle of it.
    ///
    /// A write may leave anything in the file it writes to, and leaves the
    /// other file alone. A rename happens in one step or not at all.
    pub open spec fn during(self, op: FileOpView, seen: Disk) -> bool {
        match op {
            FileOpView::CreateDirectory => seen == self,
            FileOpView::Read(_) => seen == self,
            FileOpView::Write { file, content } => seen.read(file.other()) == self.read(
                file.other(),
            ),
            FileOpView::Rename { from, to } => seen == self || seen == self.after(op),
        }
    }

    /// The disk once every request of `ops` has been carried out, in order.
    pub open spec fn run(self, ops: Seq<FileOpView>) -> Disk
        decreases ops.len(),
    {
        if ops.len() == 0 {
            self
        } else {
            self.after(ops[0]).run(ops.drop_first())
        }
    }

    /// Whether `seen` can be found on the disk at some moment while the
    /// requests of `ops` are carried out in order, the moments before the
    /// first and after the last included, and the run may stop at any of them.
    pub open spec fn observable(self, ops: Seq<FileOpView>, seen: Disk) -> bool
        decreases ops.len(),
    {
        if ops.len() == 0 {
            seen == self
        } else {
            ||| seen == self
            ||| self.during(ops[0], seen)
            ||| self.after(ops[0]).observable(ops.drop_first(), seen)
        }
    }
}

/// The requests by which `text` is saved: it is written to the sibling
/// file first, and the sibling then takes the settings file's place.
pub open spec fn save_ops(text: Seq<char>) -> Seq<FileOpView> {
    seq![
        FileOpView::Write { file: StoreFile::Temp, content: text },
        FileOpView::Rename { from: StoreFile::Temp, to: StoreFile::Settings },
    ]
}

/// The requests by which the store is loaded: the directory is made sure
/// of, then the settings file is read.
pub open spec fn load_ops() -> Seq<FileOpView> {
    seq![FileOpView::CreateDirectory, FileOpView::Read(StoreFile::Settings)]
}

/// Running two lists of requests one after the other is running their
/// concatenation.
pub proof fn lemma_run_concat(disk: Disk, first: Seq<FileOpView>, second: Seq<FileOpView>)
    ensures
        disk.run(first + second) == disk.run(first).run(second),
    decreases first.len(),
{
    if first.len() == 0 {
        assert(first + second =~= second);
    } else {
        assert((first + second).drop_first() =~= first.drop_first() + second);
        lemma_run_concat(disk.after(first[0]), first.drop_first(), second);
    }
}

/// What can be seen during two lists of requests run one after the other
/// can be seen during the first, or during the second started from where
/// the first ends.
pub proof fn lemma_observable_concat(
    disk: Disk,
    first: Seq<FileOpView>,
    second: Seq<FileOpView>,
    seen: Disk,
)
    ensures
        disk.observable(first + second, seen) <==> (disk.observable(first, seen) || disk.run(
            first,
        ).observable(second, seen)),
    decreases first.len(),
{
    if first.len() == 0 {
        assert(first + second =~= second);
        if second.len() > 0 {
        }
    } else {
        assert((first + second).drop_first() =~= first.drop_first() + second);
        assert((first + second)[0] == first[0]);
        lemma_observable_concat(disk.after(first[0]), first.drop_first(), second, seen);
    }
}

/// Saving is atomic.
///
/// Whatever the disk holds and whatever text is saved: at every moment of
/// the save, and wherever it stops, the settings file holds either what it
/// held before, unchanged, or the whole of the new text. Once the save has
/// run to its end, the settings file holds the new text and the sibling
/// file is gone.
pub proof fn lemma_save_is_atomic(disk: Disk, text: Seq<char>, seen: Disk)
    requires
        disk.observable(save_ops(text), seen),
    ensures
        seen.settings == disk.settings || seen.settings == Some(text),
        disk.run(save_ops(text)).settings == Some(text),
        disk.run(save_ops(text)).temp is None,
{
    let ops = save_ops(text);
    let written = disk.after(ops[0]);
    let rest = ops.drop_first();
    assert(rest[0] == ops[1]);
    let renamed = written.after(rest[0]);
    assert(rest.drop_first().len() == 0);
    assert(written.run(rest) == renamed.run(rest.drop_first()));
    assert(disk.run(ops) == written.run(rest));
    assert(disk.observable(ops, seen) == (seen == disk || disk.during(ops[0], seen)
        || written.observable(rest, seen)));
    assert(written.observable(rest, seen) == (seen == written || written.during(rest[0], seen)
        || renamed.observable(rest.drop_first(), seen)));
    assert(renamed.observable(rest.drop_first(), seen) == (seen == renamed));
}

/// Until the sibling file takes the settings file's place, the settings
/// file is untouched: if the save stops before the rename, or during the
/// write, what the settings file held is still there, unchanged.
pub proof fn lemma_save_touches_nothing_until_rename(disk: Disk, text: Seq<char>, seen: Disk)
    requires
        disk.during(save_ops(text)[0], seen) || seen == disk.after(save_ops(text)[0]),
    ensures
        seen.settings == disk.settings,
{
}

/// Once the sibling file has taken the settings file's place, the settings
/// file holds the new text, whatever is seen from then on.
pub proof fn lemma_save_complete_after_rename(disk: Disk, text: Seq<char>)
    ensures
        disk.after(save_ops(text)[0]).after(save_ops(text)[1]).settings == Some(text),
{
}

/// What was saved is what is read back: after a save of `text` has run to
/// its end, the settings file exists and holds exactly `text`, and loading
/// changes nothing on the disk.
pub proof fn lemma_saved_text_is_read_back(disk: Disk, text: Seq<char>)
    ensures
        disk.run(save_ops(text)).run(load_ops()) == disk.run(save_ops(text)),
        disk.run(save_ops(text)).run(load_ops()).read(StoreFile::Settings) == Some(text),
{
    let saved = disk.run(save_ops(text));
    lemma_save_is_atomic(disk, text, disk);
    lemma_load_changes_nothing(saved, saved);
}

/// A value that is saved is the value that is loaded, for every way of
/// writing settings as text that reads back what it wrote.
///
/// `encode` and `decode` stand for the two directions of that way. If
/// `decode` reads `value` back from `encode(value)`, then after a save of
/// `encode(value)` has run to its end, a load finds the settings file and
/// decodes its text to `value`.
pub proof fn lemma_round_trip_through_codec<V>(
    disk: Disk,
    value: V,
    encode: spec_fn(V) -> Seq<char>,
    decode: spec_fn(Seq<char>) -> Option<V>,
)
    requires
        decode(encode(value)) == Some(value),
    ensures
        disk.run(save_ops(encode(value))).run(load_ops()).read(StoreFile::Settings) matches Some(
            text,
        ) && decode(text) == Some(value),
{
    lemma_saved_text_is_read_back(disk, encode(value));
}

/// Loading writes nothing: its requests are read-only, and at every moment
/// of a load, and after it, both files are as they were.
pub proof fn lemma_load_changes_nothing(disk: Disk, seen: Disk)
    requires
        disk.observable(load_ops(), seen),
    ensures
        forall|i: int| 0 <= i < load_ops().len() ==> (#[trigger] load_ops()[i]).is_read_only(),
        seen == disk,
        disk.run(load_ops()) == disk,
{
    let ops = load_ops();
    let rest = ops.drop_first();
    assert(rest[0] == ops[1]);
    assert(rest.drop_first().len() == 0);
    assert(disk.run(rest) == disk.after(rest[0]).run(rest.drop_first()));
    assert(disk.run(ops) == disk.after(ops[0]).run(rest));
    assert(disk.observable(ops, seen) == (seen == disk || disk.during(ops[0], seen)
        || disk.observable(rest, seen)));
    assert(disk.observable(rest, seen) == (seen == disk || disk.during(rest[0], seen)
        || disk.observable(rest.drop_first(), seen)));
    assert(disk.observable(rest.drop_first(), seen) == (seen == disk));
}

/// Two saves, one after the other, leave the second.
///
/// If `first` is saved and then `second`, the settings file ends up
/// holding `second`. At every moment on the way it holds, whole, what it
/// held at the start, or `first`, or `second`: never a mixture.
pub proof fn lemma_sequential_saves_end_with_last(
    disk: Disk,
    first: Seq<char>,
    second: Seq<char>,
    seen: Disk,
)
    requires
        disk.observable(save_ops(first) + save_ops(second), seen),
    ensures
        seen.settings == disk.settings || seen.settings == Some(first) || seen.settings == Some(
            second,
        ),
        disk.run(save_ops(first) + save_ops(second)).settings == Some(second),
{
    lemma_run_concat(disk, save_ops(first), save_ops(second));
    lemma_observable_concat(disk, save_ops(first), save_ops(second), seen);
    let middle = disk.run(save_ops(first));
    lemma_save_is_atomic(disk, first, disk);
    lemma_save_is_atomic(middle, second, middle);
    if disk.observable(save_ops(first), seen) {
        lemma_save_is_atomic(disk, first, seen);
    } else {
        lemma_save_is_atomic(middle, second, seen);
    }
}

} // verus!
