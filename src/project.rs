//! A project: its stored description, its labels and the configuration that
//! creates it.
use std::collections::BTreeMap;
use std::collections::HashMap;
use vstd::prelude::*;
use vstd::string::StrSliceExecFns;

verus! {

/// Colour of a marker set on an epoch.
#[derive(Debug, Clone, Copy, PartialEq, Eq, Hash, Structural)]
pub enum Marker {
    Red,
    Orange,
    Yellow,
    Green,
    Cyan,
    Blue,
    Purple,
}

/// Sleep stage of a scored epoch.
#[derive(Debug, Clone, Copy, PartialEq, Eq, Structural)]
pub enum Stage {
    W,
    N1,
    N2,
    N3,
    R,
    Unset,
}

/// The short label of a stage.
pub open spec fn stage_label(stage: Stage) -> Seq<char> {
    match stage {
        Stage::W => seq!['W'],
        Stage::N1 => seq!['N', '1'],
        Stage::N2 => seq!['N', '2'],
        Stage::N3 => seq!['N', '3'],
        Stage::R => seq!['R'],
        Stage::Unset => seq!['?'],
    }
}

impl Stage {
    /// The short label of the stage: `W`, `N1`, `N2`, `N3`, `R`, or `?` when unset.
    pub fn map_str(&self) -> (r: String)
        ensures
            r@ == stage_label(*self),
    {
        proof {
            reveal_strlit("W");
            reveal_strlit("N1");
            reveal_strlit("N2");
            reveal_strlit("N3");
            reveal_strlit("R");
            reveal_strlit("?");
        }
        match self {
            Stage::W => String::from_str("W"),
            Stage::N1 => String::from_str("N1"),
            Stage::N2 => String::from_str("N2"),
            Stage::N3 => String::from_str("N3"),
            Stage::R => String::from_str("R"),
            Stage::Unset => String::from_str("?"),
        }
    }
}

/// The stage scored for each epoch.
pub struct Scorings {
    pub epoch_duration: u64,
    pub values: BTreeMap<u64, Stage>,
}

/// Markers set on epochs: across all sources, and per source.
#[derive(Default)]
pub struct Markers {
    pub global: HashMap<Marker, Vec<u64>>,
    pub local: HashMap<u32, HashMap<Marker, Vec<u64>>>,
}

#[derive(Default)]
pub struct AnnotationValue {
    pub timestamp: u64,
    pub value: String,
}

/// Free-text annotations: across all sources, and per source.
#[derive(Default)]
pub struct Annotations {
    pub global: HashMap<Marker, Vec<AnnotationValue>>,
    pub local: HashMap<u32, HashMap<Marker, Vec<AnnotationValue>>>,
}

/// Where the user left off.
#[derive(Default)]
pub struct SessionState {
    pub position: u64,
}

#[derive(Debug, Clone, Copy, PartialEq, Eq, Structural)]
pub enum ProjectType {
    SleepScoring,
    EKG,
}

#[derive(Debug, Clone, Copy, PartialEq, Eq, Structural)]
pub enum WindowType {
    MainWindow,
    Licenses,
    About,
}

pub struct SignalMergeGroup {
    pub signal_id: u16,
    pub group_id: u16,
}

/// One signal source of a stored project.
#[derive(Default)]
pub struct SignalSource {
    pub path: String,
    pub read_only: bool,
    pub offset: u64,
    pub merge_groups: Vec<SignalMergeGroup>,
}

/// A stored project.
pub struct Project {
    pub name: String,
    pub project_type: ProjectType,
    pub epoch_duration: u64,
    pub epochs_before_current: u8,
    pub epochs_after_current: u8,
    pub filter_signal: bool,
    pub clip_signal: bool,
    pub auto_align_signals: bool,
    pub signals: Vec<SignalSource>,
    pub tags: Vec<String>,
}

/// A signal file chosen while creating a project.
pub struct ProjectSignals {
    pub timestamp: u64,
    /// Length of the recording in seconds.
    pub duration: u64,
    pub signal_count: usize,
    pub path: String,
    pub name: String,
    /// The file is referenced where it lies rather than copied into the project.
    pub is_reference: bool,
}

/// What the user entered while creating a project.
pub struct ProjectConfiguration {
    pub name: String,
    pub path: String,
    pub new_tag: String,
    pub tags: Vec<String>,
    pub data: Vec<ProjectSignals>,
    pub filter_signal: bool,
    pub clip_signal: bool,
    pub auto_align_signals: bool,
}

/// Directory of a project that holds the signal files copied into it.
pub const SOURCES_DIR: &'static str = "sources";

/// The path that `std::path::Path::join` gives for `name` under `base`,
/// rendered as a string.
pub uninterp spec fn path_joined(base: Seq<char>, name: Seq<char>) -> Seq<char>;

/// Relies on `std::path::Path::join` and `to_string_lossy`: the result depends
/// on the two paths alone.
#[verifier::external_body]
fn join_path(base: &str, name: &str) -> (r: String)
    ensures
        r@ == path_joined(base@, name@),
{
    std::path::Path::new(base).join(name).to_string_lossy().to_string()
}

/// The path under which a project refers to a signal file.
pub open spec fn source_path_of(config: &ProjectSignals) -> Seq<char> {
    if config.is_reference {
        config.path@
    } else {
        path_joined(SOURCES_DIR@, config.name@)
    }
}

impl SignalSource {
    /// The stored form of a chosen signal file: a referenced file keeps its
    /// path and is read-only; a copied one lies in the project's sources
    /// directory.
    pub fn from_config(config: &ProjectSignals) -> (r: SignalSource)
        ensures
            r.path@ == source_path_of(config),
            r.read_only == config.is_reference,
            r.offset == 0,
            r.merge_groups@.len() == 0,
    {
        let path = if config.is_reference {
            config.path.clone()
        } else {
            join_path(SOURCES_DIR, config.name.as_str())
        };
        SignalSource { path, read_only: config.is_reference, offset: 0, merge_groups: Vec::new() }
    }
}

/// Epoch length, in seconds, of a new project.
pub const DEFAULT_EPOCH_DURATION: u64 = 30;

impl Project {
    /// The project that `config` describes, with the signal files it lists.
    pub fn from_config(config: &ProjectConfiguration) -> (r: Project)
        ensures
            project_made_from(r, config, config.data@),
    {
        Self::from_config_and_signals(config, &config.data)
    }

    /// The project that `config` describes, with the signal files `signals`.
    pub fn from_config_and_signals(
        config: &ProjectConfiguration,
        signals: &Vec<ProjectSignals>,
    ) -> (r: Project)
        ensures
            project_made_from(r, config, signals@),
    {
        let mut tags: Vec<String> = Vec::new();
        let mut i: usize = 0;
        while i < config.tags.len()
            invariant
                i <= config.tags@.len(),
                tags@.len() == i,
                forall|k: int| 0 <= k < i ==> (#[trigger] tags@[k])@ == config.tags@[k]@,
            decreases config.tags@.len() - i,
        {
            tags.push(config.tags[i].clone());
            i += 1;
        }
        let mut sources: Vec<SignalSource> = Vec::new();
        let mut j: usize = 0;
        while j < signals.len()
            invariant
                j <= signals@.len(),
                sources@.len() == j,
                forall|k: int|
                    0 <= k < j ==> {
                        &&& (#[trigger] sources@[k]).path@ == source_path_of(&signals@[k])
                        &&& sources@[k].read_only == signals@[k].is_reference
                        &&& sources@[k].offset == 0
                        &&& sources@[k].merge_groups@.len() == 0
                    },
            decreases signals@.len() - j,
        {
            sources.push(SignalSource::from_config(&signals[j]));
            j += 1;
        }
        Project {
            name: config.name.clone(),
            project_type: ProjectType::SleepScoring,
            epoch_duration: DEFAULT_EPOCH_DURATION,
            epochs_before_current: 1,
            epochs_after_current: 1,
            filter_signal: config.filter_signal,
            clip_signal: config.clip_signal,
            auto_align_signals: config.auto_align_signals,
            signals: sources,
            tags,
        }
    }
}

/// `p` is the new sleep-scoring project for `config` and the signal files
/// `signals`: 30-second epochs, one epoch shown on either side.
pub open spec fn project_made_from(
    p: Project,
    config: &ProjectConfiguration,
    signals: Seq<ProjectSignals>,
) -> bool {
    &&& p.name@ == config.name@
    &&& p.project_type == ProjectType::SleepScoring
    &&& p.epoch_duration == DEFAULT_EPOCH_DURATION
    &&& p.epochs_before_current == 1
    &&& p.epochs_after_current == 1
    &&& p.filter_signal == config.filter_signal
    &&& p.clip_signal == config.clip_signal
    &&& p.auto_align_signals == config.auto_align_signals
    &&& p.tags@.len() == config.tags@.len()
    &&& forall|k: int| 0 <= k < p.tags@.len() ==> (#[trigger] p.tags@[k])@ == config.tags@[k]@
    &&& p.signals@.len() == signals.len()
    &&& forall|k: int|
        0 <= k < p.signals@.len() ==> {
            &&& (#[trigger] p.signals@[k]).path@ == source_path_of(&signals[k])
            &&& p.signals@[k].read_only == signals[k].is_reference
            &&& p.signals@[k].offset == 0
            &&& p.signals@[k].merge_groups@.len() == 0
        }
}

/// A character that a file name may not hold: one reserved by common file
/// systems, or a control character.
pub open spec fn is_illegal_path_char(c: char) -> bool {
    ||| c == '<'
    ||| c == '>'
    ||| c == ':'
    ||| c == '"'
    ||| c == '/'
    ||| c == '\\'
    ||| c == '|'
    ||| c == '?'
    ||| c == '*'
    ||| (c as u32) <= 0x1f
}

fn illegal_path_char(c: char) -> (r: bool)
    ensures
        r == is_illegal_path_char(c),
{
    c == '<' || c == '>' || c == ':' || c == '"' || c == '/' || c == '\\' || c == '|' || c == '?'
        || c == '*' || (c as u32) <= 0x1f
}

/// Number of bytes of the UTF-8 encoding of `c`.
pub open spec fn utf8_len(c: char) -> int {
    if (c as u32) < 0x80 {
        1
    } else if (c as u32) < 0x800 {
        2
    } else if (c as u32) < 0x10000 {
        3
    } else {
        4
    }
}

/// Byte offset, in UTF-8, of character `i` of `s`.
pub open spec fn byte_offset(s: Seq<char>, i: int) -> int
    decreases i,
{
    if i <= 0 {
        0
    } else {
        byte_offset(s, i - 1) + utf8_len(s[i - 1])
    }
}

/// Relies on `str::char_indices`: it yields each character with its byte
/// offset in the string's UTF-8 encoding, in order.
#[verifier::external_body]
fn char_offsets(value: &str) -> (r: Vec<usize>)
    ensures
        r@.len() == value@.len(),
        forall|i: int| 0 <= i < r@.len() ==> #[trigger] r@[i] == byte_offset(value@, i),
{
    value.char_indices().map(|(i, _)| i).collect()
}

/// Byte offsets of the characters of the first `n` of `s` that a file name
/// may not hold.
pub open spec fn illegal_positions(s: Seq<char>, n: int) -> Seq<usize>
    decreases n,
{
    if n <= 0 {
        Seq::empty()
    } else if is_illegal_path_char(s[n - 1]) {
        illegal_positions(s, n - 1).push(byte_offset(s, n - 1) as usize)
    } else {
        illegal_positions(s, n - 1)
    }
}

/// The characters of the first `n` of `s` that a file name may hold.
pub open spec fn legal_chars(s: Seq<char>, n: int) -> Seq<char>
    decreases n,
{
    if n <= 0 {
        Seq::empty()
    } else if is_illegal_path_char(s[n - 1]) {
        legal_chars(s, n - 1)
    } else {
        legal_chars(s, n - 1).push(s[n - 1])
    }
}

/// Byte offsets, ascending, of the characters of `value` that a file name
/// may not hold.
pub fn illegal_path_char_positions(value: &str) -> (r: Vec<usize>)
    ensures
        r@ == illegal_positions(value@, value@.len() as int),
{
    let offsets = char_offsets(value);
    let n = value.unicode_len();
    let mut out: Vec<usize> = Vec::new();
    let mut i: usize = 0;
    while i < n
        invariant
            n == value@.len(),
            offsets@.len() == n,
            forall|k: int| 0 <= k < n ==> #[trigger] offsets@[k] == byte_offset(value@, k),
            i <= n,
            out@ == illegal_positions(value@, i as int),
        decreases n - i,
    {
        if illegal_path_char(value.get_char(i)) {
            out.push(offsets[i]);
        }
        i += 1;
    }
    out
}

/// `value` without the characters that a file name may not hold.
pub fn sanitize_file_name(value: &str) -> (r: String)
    ensures
        r@ == legal_chars(value@, value@.len() as int),
{
    let n = value.unicode_len();
    let mut out = String::new();
    let mut i: usize = 0;
    while i < n
        invariant
            n == value@.len(),
            i <= n,
            out@ == legal_chars(value@, i as int),
        decreases n - i,
    {
        let c = value.get_char(i);
        if !illegal_path_char(c) {
            out.push(c);
        }
        i += 1;
    }
    out
}

impl Scorings {
    /// Scores epoch `epoch` with `stage`; `Stage::Unset` clears its score.
    pub fn rate(&mut self, epoch: u64, stage: Stage)
        ensures
            final(self).epoch_duration == old(self).epoch_duration,
            stage == Stage::Unset ==> final(self).values@ == old(self).values@.remove(epoch),
            stage != Stage::Unset ==> final(self).values@ == old(self).values@.insert(epoch, stage),
    {
        broadcast use vstd::std_specs::btree::group_btree_axioms, vstd::laws_cmp::group_laws_cmp;

        if stage == Stage::Unset {
            self.values.remove(&epoch);
        } else {
            self.values.insert(epoch, stage);
        }
    }
}

impl ProjectConfiguration {
    /// The configuration that creating a project starts from: nothing
    /// entered yet, with filtering, clipping and alignment switched on.
    pub fn new() -> (r: ProjectConfiguration)
        ensures
            r.name@.len() == 0,
            r.path@.len() == 0,
            r.new_tag@.len() == 0,
            r.tags@.len() == 0,
            r.data@.len() == 0,
            r.filter_signal,
            r.clip_signal,
            r.auto_align_signals,
    {
        ProjectConfiguration {
            name: String::new(),
            path: String::new(),
            new_tag: String::new(),
            tags: Vec::new(),
            data: Vec::new(),
            filter_signal: true,
            clip_signal: true,
            auto_align_signals: true,
        }
    }

    /// Removes tag `index`.
    pub fn remove_tag(&mut self, index: usize)
        requires
            index < old(self).tags@.len(),
        ensures
            final(self).tags@ == old(self).tags@.remove(index as int),
            final(self).data@ == old(self).data@,
            final(self).name@ == old(self).name@,
    {
        self.tags.remove(index);
    }

    /// Removes the first chosen signal file whose path is `path`; nothing
    /// changes when none has it.
    pub fn remove_signal(&mut self, path: &str)
        ensures
            final(self).tags@ == old(self).tags@,
            (forall|i: int| 0 <= i < old(self).data@.len() ==> (#[trigger] old(self).data@[i]).path@ != path@)
                ==> final(self).data@ == old(self).data@,
            forall|i: int|
                0 <= i < old(self).data@.len() && old(self).data@[i].path@ == path@ && (forall|k: int|
                    0 <= k < i ==> (#[trigger] old(self).data@[k]).path@ != path@) ==> final(self).data@
                    == old(self).data@.remove(i),
    {
        let target = path.to_owned();
        let mut i: usize = 0;
        while i < self.data.len()
            invariant
                *self == *old(self),
                target@ == path@,
                i <= self.data@.len(),
                forall|k: int| 0 <= k < i ==> (#[trigger] self.data@[k]).path@ != path@,
            decreases self.data@.len() - i,
        {
            if self.data[i].path == target {
                let ghost at = i as int;
                assert(old(self).data@[at].path@ == path@);
                self.data.remove(i);
                return;
            }
            i += 1;
        }
    }
}

} // verus!
