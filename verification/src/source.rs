//! Audio sources: which directory entries are audio files, what a file name
//! says of its stem and extension, and the metadata of an audio stream.

use vstd::prelude::*;

use crate::text::{ascii_lower, eq_ascii_lowercase};

verus! {

// ---------------------------------------------------------------------------
// File names
// ---------------------------------------------------------------------------

/// The index of the last `.` in `s`, or -1 when there is none.
pub open spec fn last_dot(s: Seq<char>) -> int
    decreases s.len(),
{
    if s.len() == 0 {
        -1
    } else if s.last() == '.' {
        s.len() - 1
    } else {
        last_dot(s.drop_last())
    }
}

/// Where a file name splits into stem and extension: at its last `.`,
/// unless the name has no `.`, its only `.` is the first character, or the
/// name is `..`.
pub open spec fn dot_split(s: Seq<char>) -> Option<int> {
    if s == seq!['.', '.'] || last_dot(s) <= 0 {
        None
    } else {
        Some(last_dot(s))
    }
}

/// The extension of a file name: what follows the split point, if any.
pub open spec fn name_extension(s: Seq<char>) -> Option<Seq<char>> {
    match dot_split(s) {
        Some(k) => Some(s.subrange(k + 1, s.len() as int)),
        None => None,
    }
}

/// The stem of a file name: what precedes the split point, or the whole
/// name where there is none.
pub open spec fn name_stem(s: Seq<char>) -> Seq<char> {
    match dot_split(s) {
        Some(k) => s.subrange(0, k),
        None => s,
    }
}

/// `last_dot` is the position of the final `.`.
pub proof fn lemma_last_dot(s: Seq<char>)
    ensures
        -1 <= last_dot(s) < s.len(),
        last_dot(s) >= 0 ==> s[last_dot(s)] == '.',
        forall|j: int| last_dot(s) < j < s.len() ==> s[j] != '.',
    decreases s.len(),
{
    if s.len() > 0 && s.last() != '.' {
        let t = s.drop_last();
        lemma_last_dot(t);
        assert forall|j: int| last_dot(s) < j < s.len() implies s[j] != '.' by {
            if j < s.len() - 1 {
                assert(s[j] == t[j]);
            }
        }
    }
}

/// A file name is its stem, a `.` and its extension where it has an
/// extension, and its stem alone where it has none; an extension holds no
/// `.`, and a name with an extension has a non-empty stem.
pub proof fn lemma_stem_and_extension(s: Seq<char>)
    ensures
        match name_extension(s) {
            Some(e) => {
                &&& s == name_stem(s) + seq!['.'] + e
                &&& name_stem(s).len() > 0
                &&& !e.contains('.')
            },
            None => name_stem(s) == s,
        },
{
    lemma_last_dot(s);
    if let Some(k) = dot_split(s) {
        let e = s.subrange(k + 1, s.len() as int);
        assert(s =~= s.subrange(0, k) + seq!['.'] + e);
        assert forall|j: int| 0 <= j < e.len() implies e[j] != '.' by {
            assert(e[j] == s[k + 1 + j]);
        }
    }
}

/// The split rule of file names: a name whose last `.` is not its first
/// character, and which is not `..`, has as extension what follows that `.`
/// and as stem what precedes it; any other name has no extension and is its
/// own stem.
pub proof fn lemma_split_at_last_dot(s: Seq<char>)
    ensures
        (last_dot(s) > 0 && s != seq!['.', '.']) ==> {
            &&& name_extension(s) == Some(s.subrange(last_dot(s) + 1, s.len() as int))
            &&& name_stem(s) == s.subrange(0, last_dot(s))
        },
        !(last_dot(s) > 0 && s != seq!['.', '.']) ==> {
            &&& name_extension(s) is None
            &&& name_stem(s) == s
        },
{
}

/// The last `.` of a concatenation is the last `.` of its second part, if
/// that has one, and otherwise the last `.` of its first part.
pub proof fn lemma_last_dot_concat(s: Seq<char>, t: Seq<char>)
    ensures
        last_dot(s + t) == if last_dot(t) >= 0 {
            s.len() + last_dot(t)
        } else {
            last_dot(s)
        },
    decreases t.len(),
{
    if t.len() == 0 {
        assert(s + t =~= s);
    } else {
        let u = s + t;
        assert(u.last() == t.last());
        assert(u.drop_last() =~= s + t.drop_last());
        if t.last() != '.' {
            lemma_last_dot_concat(s, t.drop_last());
        }
    }
}

/// A name without `.` has no last `.`.
pub proof fn lemma_no_dot(s: Seq<char>)
    requires
        !s.contains('.'),
    ensures
        last_dot(s) == -1,
{
    lemma_last_dot(s);
    if last_dot(s) >= 0 {
        assert(s[last_dot(s)] == '.');
        assert(s.contains('.'));
    }
}

/// The extension of a name made of a non-empty stem without `.`, a `.` and
/// a tail `e` is what follows the last `.` of `e`, or all of `e` where `e`
/// has no `.`: it does not depend on the stem.
pub proof fn lemma_extension_after_plain_stem(a: Seq<char>, e: Seq<char>)
    requires
        a.len() > 0,
        !a.contains('.'),
    ensures
        name_extension(a + seq!['.'] + e) == Some(
            if last_dot(e) >= 0 {
                e.subrange(last_dot(e) + 1, e.len() as int)
            } else {
                e
            },
        ),
{
    let ad = a + seq!['.'];
    let s = ad + e;
    lemma_no_dot(a);
    lemma_last_dot_concat(a, seq!['.']);
    lemma_last_dot_concat(ad, e);
    lemma_last_dot(e);
    if s == seq!['.', '.'] {
        assert(a[0] == s[0]);
        assert(a.contains('.'));
    }
    let k = last_dot(s);
    if last_dot(e) >= 0 {
        assert(s.subrange(k + 1, s.len() as int) =~= e.subrange(last_dot(e) + 1, e.len() as int));
    } else {
        assert(s.subrange(k + 1, s.len() as int) =~= e);
    }
}

/// Finds the position of the last `.` of `name`.
fn find_last_dot(name: &str) -> (r: Option<usize>)
    ensures
        match r {
            Some(k) => k == last_dot(name@),
            None => last_dot(name@) == -1,
        },
{
    let n = name.unicode_len();
    let mut found: Option<usize> = None;
    let mut i: usize = 0;
    while i < n
        invariant
            n == name@.len(),
            i <= n,
            match found {
                Some(k) => k == last_dot(name@.subrange(0, i as int)),
                None => last_dot(name@.subrange(0, i as int)) == -1,
            },
        decreases n - i,
    {
        let c = name.get_char(i);
        assert(name@.subrange(0, i + 1).drop_last() =~= name@.subrange(0, i as int));
        if c == '.' {
            found = Some(i);
        }
        i = i + 1;
    }
    assert(name@.subrange(0, n as int) =~= name@);
    found
}

/// Whether `name` is exactly `..`.
fn is_parent_dir_name(name: &str) -> (r: bool)
    ensures
        r == (name@ == seq!['.', '.']),
{
    let n = name.unicode_len();
    if n != 2 {
        return false;
    }
    let r = name.get_char(0) == '.' && name.get_char(1) == '.';
    assert(r ==> name@ =~= seq!['.', '.']);
    r
}

/// Where `name` splits into stem and extension.
fn split_point(name: &str) -> (r: Option<usize>)
    ensures
        match r {
            Some(k) => dot_split(name@) == Some(k as int),
            None => dot_split(name@) is None,
        },
{
    if is_parent_dir_name(name) {
        return None;
    }
    match find_last_dot(name) {
        Some(k) => if k == 0 {
            None
        } else {
            Some(k)
        },
        None => None,
    }
}

/// The extension of a file name, as `Path::extension` gives it.
pub fn file_extension(name: &str) -> (r: Option<&str>)
    ensures
        r is Some <==> name_extension(name@) is Some,
        r matches Some(e) ==> Some(e@) == name_extension(name@),
        (last_dot(name@) > 0 && name@ != seq!['.', '.']) ==> (r matches Some(e) && e@
            == name@.subrange(last_dot(name@) + 1, name@.len() as int)),
        !(last_dot(name@) > 0 && name@ != seq!['.', '.']) ==> r is None,
{
    proof {
        lemma_last_dot(name@);
    }
    match split_point(name) {
        Some(k) => {
            let n = name.unicode_len();
            Some(name.substring_char(k + 1, n))
        },
        None => None,
    }
}

/// The stem of a file name, as `Path::file_stem` gives it.
pub fn file_stem(name: &str) -> (r: &str)
    ensures
        r@ == name_stem(name@),
        (last_dot(name@) > 0 && name@ != seq!['.', '.']) ==> r@ == name@.subrange(
            0,
            last_dot(name@),
        ),
        !(last_dot(name@) > 0 && name@ != seq!['.', '.']) ==> r@ == name@,
{
    proof {
        lemma_last_dot(name@);
    }
    match split_point(name) {
        Some(k) => name.substring_char(0, k),
        None => {
            let n = name.unicode_len();
            let r = name.substring_char(0, n);
            assert(r@ =~= name@);
            r
        },
    }
}

// ---------------------------------------------------------------------------
// Audio files
// ---------------------------------------------------------------------------

/// Whether an extension names an audio format that is read: `flac`, `wav`
/// or `mp3`, in any ASCII case.
pub open spec fn is_audio_extension_spec(e: Seq<char>) -> bool {
    let l = ascii_lower(e);
    l == "flac"@ || l == "wav"@ || l == "mp3"@
}

/// Whether a file name has an audio extension.
pub open spec fn is_audio_name(name: Seq<char>) -> bool {
    match name_extension(name) {
        Some(e) => is_audio_extension_spec(e),
        None => false,
    }
}

/// Lower-casing twice is lower-casing once.
pub proof fn lemma_ascii_lower_idempotent(s: Seq<char>)
    ensures
        ascii_lower(ascii_lower(s)) == ascii_lower(s),
{
    assert(ascii_lower(ascii_lower(s)) =~= ascii_lower(s));
}

/// Recognizing an audio extension ignores ASCII case: an extension is an
/// audio extension exactly when its lower-case form is one.
pub proof fn lemma_audio_extension_ignores_case(e: Seq<char>)
    ensures
        is_audio_extension_spec(e) == is_audio_extension_spec(ascii_lower(e)),
{
    lemma_ascii_lower_idempotent(e);
}

/// A name is an audio file name exactly when it has an extension that,
/// ASCII lower-cased, is `flac`, `wav` or `mp3`.
pub proof fn lemma_audio_name_rule(s: Seq<char>)
    ensures
        is_audio_name(s) <==> (name_extension(s) matches Some(e) && (ascii_lower(e) == "flac"@
            || ascii_lower(e) == "wav"@ || ascii_lower(e) == "mp3"@)),
{
}

/// Whether a name is an audio file name does not depend on its stem: two
/// names with non-empty stems without `.` and the same tail agree.
pub proof fn lemma_audio_name_ignores_stem(a: Seq<char>, b: Seq<char>, e: Seq<char>)
    requires
        a.len() > 0,
        !a.contains('.'),
        b.len() > 0,
        !b.contains('.'),
    ensures
        is_audio_name(a + seq!['.'] + e) == is_audio_name(b + seq!['.'] + e),
        name_extension(a + seq!['.'] + e) == name_extension(b + seq!['.'] + e),
{
    lemma_extension_after_plain_stem(a, e);
    lemma_extension_after_plain_stem(b, e);
}

/// A directory entry is kept exactly when it is a file whose name has an
/// extension that, ASCII lower-cased, is `flac`, `wav` or `mp3`.
pub proof fn lemma_audio_entry_rule(d: DirEntryInfo)
    ensures
        is_audio_entry(d) <==> (d.is_file && (d.file_name matches Some(n) && (name_extension(n@) matches Some(
            e,
        ) && (ascii_lower(e) == "flac"@ || ascii_lower(e) == "wav"@ || ascii_lower(e)
            == "mp3"@)))),
{
}

/// Checks an extension against the audio formats, ignoring ASCII case.
pub fn is_audio_extension(ext: &str) -> (r: bool)
    ensures
        r == is_audio_extension_spec(ext@),
        r == (ascii_lower(ext@) == "flac"@ || ascii_lower(ext@) == "wav"@ || ascii_lower(ext@)
            == "mp3"@),
{
    eq_ascii_lowercase(ext, "flac") || eq_ascii_lowercase(ext, "wav") || eq_ascii_lowercase(
        ext,
        "mp3",
    )
}

/// Checks whether a file name has an audio extension.
pub fn is_audio_file_name(name: &str) -> (r: bool)
    ensures
        r == is_audio_name(name@),
        r == (name_extension(name@) matches Some(e) && (ascii_lower(e) == "flac"@ || ascii_lower(e)
            == "wav"@ || ascii_lower(e) == "mp3"@)),
{
    match file_extension(name) {
        Some(e) => is_audio_extension(e),
        None => false,
    }
}

/// What a directory listing says of one entry: its file name as text (`None`
/// where the path has no file name) and whether it is a file.
#[derive(Debug, Clone, PartialEq, Eq)]
pub struct DirEntryInfo {
    pub file_name: Option<String>,
    pub is_file: bool,
}

/// Whether a directory entry is an audio file.
pub open spec fn is_audio_entry(e: DirEntryInfo) -> bool {
    e.is_file && (e.file_name matches Some(n) && is_audio_name(n@))
}

/// The positions of the audio files of a listing, in listing order.
pub open spec fn audio_indices(entries: Seq<DirEntryInfo>) -> Seq<usize>
    decreases entries.len(),
{
    if entries.len() == 0 {
        Seq::empty()
    } else {
        let prev = audio_indices(entries.drop_last());
        if is_audio_entry(entries.last()) {
            prev.push((entries.len() - 1) as usize)
        } else {
            prev
        }
    }
}

/// Picks the audio files out of a directory listing: the positions of the
/// entries that are files with a `flac`, `wav` or `mp3` extension (in any
/// ASCII case), in listing order.
pub fn audio_file_indices(entries: &Vec<DirEntryInfo>) -> (r: Vec<usize>)
    ensures
        r@ == audio_indices(entries@),
        forall|k: int|
            0 <= k < r@.len() ==> {
                &&& #[trigger] r@[k] < entries@.len()
                &&& is_audio_entry(entries@[r@[k] as int])
            },
        forall|i: int|
            0 <= i < entries@.len() && is_audio_entry(#[trigger] entries@[i]) ==> r@.contains(
                i as usize,
            ),
        forall|k1: int, k2: int| 0 <= k1 < k2 < r@.len() ==> r@[k1] < r@[k2],
{
    let mut r: Vec<usize> = Vec::new();
    let n = entries.len();
    let mut i: usize = 0;
    while i < n
        invariant
            n == entries@.len(),
            i <= n,
            r@ == audio_indices(entries@.subrange(0, i as int)),
        decreases n - i,
    {
        let e = &entries[i];
        let keep = e.is_file && match &e.file_name {
            Some(name) => is_audio_file_name(name.as_str()),
            None => false,
        };
        assert(entries@.subrange(0, i + 1).drop_last() =~= entries@.subrange(0, i as int));
        if keep {
            r.push(i);
        }
        i = i + 1;
    }
    assert(entries@.subrange(0, n as int) =~= entries@);
    proof {
        lemma_audio_indices_exact(entries@);
    }
    r
}

/// The selection holds exactly the audio files, each once, in listing order.
pub proof fn lemma_audio_indices_exact(entries: Seq<DirEntryInfo>)
    requires
        entries.len() <= usize::MAX,
    ensures
        forall|k: int|
            0 <= k < audio_indices(entries).len() ==> {
                &&& #[trigger] audio_indices(entries)[k] < entries.len()
                &&& is_audio_entry(entries[audio_indices(entries)[k] as int])
            },
        forall|i: int|
            0 <= i < entries.len() && is_audio_entry(#[trigger] entries[i]) ==> audio_indices(
                entries,
            ).contains(i as usize),
        forall|k1: int, k2: int|
            0 <= k1 < k2 < audio_indices(entries).len() ==> audio_indices(entries)[k1]
                < audio_indices(entries)[k2],
    decreases entries.len(),
{
    if entries.len() > 0 {
        let prev_entries = entries.drop_last();
        lemma_audio_indices_exact(prev_entries);
        let prev = audio_indices(prev_entries);
        let cur = audio_indices(entries);
        assert forall|k: int| 0 <= k < cur.len() implies #[trigger] cur[k] < entries.len()
            && is_audio_entry(entries[cur[k] as int]) by {
            if k < prev.len() {
                assert(cur[k] == prev[k]);
                assert(entries[prev[k] as int] == prev_entries[prev[k] as int]);
            }
        }
        assert forall|i: int|
            0 <= i < entries.len() && is_audio_entry(#[trigger] entries[i]) implies cur.contains(
            i as usize,
        ) by {
            if i < entries.len() - 1 {
                assert(prev_entries[i] == entries[i]);
                assert(prev.contains(i as usize));
                let w = choose|w: int| 0 <= w < prev.len() && prev[w] == i as usize;
                assert(cur[w] == prev[w]);
            } else {
                assert(cur[cur.len() - 1] == i as usize);
            }
        }
    }
}

// ---------------------------------------------------------------------------
// Stream metadata
// ---------------------------------------------------------------------------

/// The abstract content of a `SignalInfo`.
pub struct SignalInfoView {
    pub name: Seq<char>,
    pub path: Option<Seq<char>>,
    pub sample_rate: u32,
    pub n_samples: u64,
    pub n_channels: u16,
}

/// Signal source metadata.
#[derive(Debug, Clone)]
pub struct SignalInfo {
    name: String,
    path: Option<String>,
    sample_rate: u32,
    n_samples: u64,
    n_channels: u16,
}

impl View for SignalInfo {
    type V = SignalInfoView;

    closed spec fn view(&self) -> SignalInfoView {
        SignalInfoView {
            name: self.name@,
            path: match self.path {
                Some(p) => Some(p@),
                None => None,
            },
            sample_rate: self.sample_rate,
            n_samples: self.n_samples,
            n_channels: self.n_channels,
        }
    }
}

impl SignalInfo {
    /// The name of the source.
    pub fn get_name(&self) -> (r: &str)
        ensures
            r@ == self@.name,
    {
        self.name.as_str()
    }

    /// The path the source was read from, if any.
    pub fn get_path(&self) -> (r: Option<&str>)
        ensures
            r is Some <==> self@.path is Some,
            r matches Some(p) ==> Some(p@) == self@.path,
    {
        match &self.path {
            Some(p) => Some(p.as_str()),
            None => None,
        }
    }

    /// Samples per second of each channel.
    pub fn get_sample_rate(&self) -> (r: u32)
        ensures
            r == self@.sample_rate,
    {
        self.sample_rate
    }

    /// Number of frames in the source.
    pub fn get_n_samples(&self) -> (r: u64)
        ensures
            r == self@.n_samples,
    {
        self.n_samples
    }

    /// Number of channels.
    pub fn get_n_channels(&self) -> (r: u16)
        ensures
            r == self@.n_channels,
    {
        self.n_channels
    }
}

/// What a container says of one of its tracks.
#[derive(Debug, Clone, Copy, PartialEq, Eq)]
pub struct TrackInfo {
    /// The track's identifier within its container.
    pub id: u32,
    /// Whether the track carries audio codec parameters.
    pub is_audio: bool,
    /// Whether its codec is the null (sentinel) audio codec.
    pub codec_is_null: bool,
    /// Samples per second, where the container states it.
    pub sample_rate: Option<u32>,
    /// Number of frames, where the container states it.
    pub num_frames: Option<u64>,
    /// Number of channels, where the container states them.
    pub channel_count: Option<usize>,
}

/// Whether a track can be decoded as audio.
pub open spec fn is_playable(t: TrackInfo) -> bool {
    t.is_audio && !t.codec_is_null
}

/// A track is playable exactly when it carries audio codec parameters and
/// its codec is not the null codec; its identifier and its metadata play no
/// part.
pub proof fn lemma_playable_rule(t: TrackInfo)
    ensures
        is_playable(t) <==> (t.is_audio && !t.codec_is_null),
        forall|id: u32| is_playable(t) == is_playable(TrackInfo { id, ..t }),
{
}

/// The first track that is audio with a non-null codec is the first
/// playable one, whatever the identifiers.
pub proof fn lemma_first_playable_rule(tracks: Seq<TrackInfo>, i: int)
    requires
        0 <= i < tracks.len(),
        tracks[i].is_audio,
        !tracks[i].codec_is_null,
        forall|j: int| 0 <= j < i ==> !(#[trigger] tracks[j]).is_audio || tracks[j].codec_is_null,
    ensures
        is_first_playable(tracks, i),
{
}

/// Whether `i` is the first playable track of `tracks`.
pub open spec fn is_first_playable(tracks: Seq<TrackInfo>, i: int) -> bool {
    &&& 0 <= i < tracks.len()
    &&& is_playable(tracks[i])
    &&& forall|j: int| 0 <= j < i ==> !is_playable(#[trigger] tracks[j])
}

/// Finds the first playable audio track.
pub fn first_playable_track(tracks: &Vec<TrackInfo>) -> (r: Option<usize>)
    ensures
        match r {
            Some(i) => is_first_playable(tracks@, i as int),
            None => forall|j: int| 0 <= j < tracks@.len() ==> !is_playable(#[trigger] tracks@[j]),
        },
        match r {
            Some(i) => {
                &&& i < tracks@.len()
                &&& tracks@[i as int].is_audio
                &&& !tracks@[i as int].codec_is_null
                &&& forall|j: int|
                    0 <= j < i ==> !(#[trigger] tracks@[j]).is_audio || tracks@[j].codec_is_null
            },
            None => forall|j: int|
                0 <= j < tracks@.len() ==> !(#[trigger] tracks@[j]).is_audio
                    || tracks@[j].codec_is_null,
        },
{
    let n = tracks.len();
    let mut i: usize = 0;
    while i < n
        invariant
            n == tracks@.len(),
            i <= n,
            forall|j: int| 0 <= j < i ==> !is_playable(#[trigger] tracks@[j]),
        decreases n - i,
    {
        if tracks[i].is_audio && !tracks[i].codec_is_null {
            return Some(i);
        }
        i = i + 1;
    }
    None
}

/// Why an audio stream could not be opened from its container's tracks.
#[derive(Debug, Clone, Copy, PartialEq, Eq, Structural)]
pub enum OpenError {
    NoAudioTrack,
    UnknownSampleRate,
    UnknownTrackSize,
}

impl OpenError {
    /// The human-readable description of the error.
    pub open spec fn describe(&self) -> Seq<char> {
        match self {
            OpenError::NoAudioTrack => "No audio tracks found"@,
            OpenError::UnknownSampleRate => "Unknown sample rate!"@,
            OpenError::UnknownTrackSize => "Unknown track size!"@,
        }
    }

    /// Renders the error as text.
    pub fn message(&self) -> (r: String)
        ensures
            r@ == self.describe(),
    {
        match self {
            OpenError::NoAudioTrack => String::from_str("No audio tracks found"),
            OpenError::UnknownSampleRate => String::from_str("Unknown sample rate!"),
            OpenError::UnknownTrackSize => String::from_str("Unknown track size!"),
        }
    }
}

/// The name given to a source whose file name gives none.
pub open spec fn unknown_name() -> Seq<char> {
    "Unknown file name"@
}

/// The name of a source: the stem of its file name, if it has one.
pub open spec fn source_name(file_name: Option<Seq<char>>) -> Seq<char> {
    match file_name {
        Some(n) => name_stem(n),
        None => unknown_name(),
    }
}

/// The view of an optional string.
pub open spec fn opt_view(s: Option<&str>) -> Option<Seq<char>> {
    match s {
        Some(t) => Some(t@),
        None => None,
    }
}

/// The metadata of a stream read from track `t` of the file at `path`:
/// the sample rate and the frame count must be known; the channel count
/// defaults to one and is kept modulo 2^16.
pub open spec fn track_metadata(
    path: Seq<char>,
    file_name: Option<Seq<char>>,
    t: TrackInfo,
) -> Result<SignalInfoView, OpenError> {
    match t.sample_rate {
        None => Err(OpenError::UnknownSampleRate),
        Some(rate) => match t.num_frames {
            None => Err(OpenError::UnknownTrackSize),
            Some(frames) => Ok(
                SignalInfoView {
                    name: source_name(file_name),
                    path: Some(path),
                    sample_rate: rate,
                    n_samples: frames,
                    n_channels: ((match t.channel_count {
                        Some(c) => c as int,
                        None => 1,
                    }) % 0x1_0000) as u16,
                },
            ),
        },
    }
}

/// The channel count of a track reduced to 16 bits (one where unknown).
fn channel_count_u16(count: Option<usize>) -> (r: u16)
    ensures
        r as int == (match count {
            Some(c) => c as int,
            None => 1,
        }) % 0x1_0000,
{
    match count {
        Some(c) => {
            let wide: u64 = c as u64;
            let r: u16 = wide as u16;
            assert(r == wide % 0x1_0000) by (bit_vector)
                requires
                    r == wide as u16,
            ;
            r
        },
        None => 1,
    }
}

/// Builds the metadata of a stream read from track `t` of the file at
/// `path`, whose file name is `file_name`.
pub fn track_signal_info(path: &str, file_name: Option<&str>, t: &TrackInfo) -> (r: Result<
    SignalInfo,
    OpenError,
>)
    ensures
        match track_metadata(path@, opt_view(file_name), *t) {
            Ok(v) => r matches Ok(info) && info@ == v,
            Err(e) => r == Err::<SignalInfo, OpenError>(e),
        },
        t.sample_rate is None ==> r == Err::<SignalInfo, OpenError>(OpenError::UnknownSampleRate),
        t.sample_rate is Some && t.num_frames is None ==> r == Err::<SignalInfo, OpenError>(
            OpenError::UnknownTrackSize,
        ),
        r matches Ok(info) ==> {
            &&& t.sample_rate == Some(info@.sample_rate)
            &&& t.num_frames == Some(info@.n_samples)
            &&& info@.path == Some(path@)
            &&& info@.name == match file_name {
                Some(n) => name_stem(n@),
                None => "Unknown file name"@,
            }
            &&& info@.n_channels as int == (match t.channel_count {
                Some(c) => c as int,
                None => 1,
            }) % 0x1_0000
        },
{
    let sample_rate = match t.sample_rate {
        Some(rate) => rate,
        None => return Err(OpenError::UnknownSampleRate),
    };
    let n_samples = match t.num_frames {
        Some(frames) => frames,
        None => return Err(OpenError::UnknownTrackSize),
    };
    let name = match file_name {
        Some(n) => String::from_str(file_stem(n)),
        None => String::from_str("Unknown file name"),
    };
    let info = SignalInfo {
        name,
        path: Some(String::from_str(path)),
        sample_rate,
        n_samples,
        n_channels: channel_count_u16(t.channel_count),
    };
    Ok(info)
}

/// The track chosen for a stream and the stream's metadata.
#[derive(Debug, Clone)]
pub struct StreamPlan {
    /// Position of the chosen track in the container's track list.
    pub track_index: usize,
    /// Identifier of the chosen track.
    pub track_id: u32,
    /// Metadata of the stream.
    pub info: SignalInfo,
}

/// Chooses the track to decode from the file at `path` (file name
/// `file_name`, whose container lists `tracks`): the first playable audio
/// track, whose sample rate and frame count must be known.
pub fn plan_audio_stream(path: &str, file_name: Option<&str>, tracks: &Vec<TrackInfo>) -> (r: Result<
    StreamPlan,
    OpenError,
>)
    ensures
        (r == Err::<StreamPlan, OpenError>(OpenError::NoAudioTrack)) <==> (forall|j: int|
            0 <= j < tracks@.len() ==> !is_playable(#[trigger] tracks@[j])),
        (r == Err::<StreamPlan, OpenError>(OpenError::NoAudioTrack)) <==> (forall|j: int|
            0 <= j < tracks@.len() ==> !(#[trigger] tracks@[j]).is_audio
                || tracks@[j].codec_is_null),
        r matches Ok(p) ==> {
            &&& p.track_index < tracks@.len()
            &&& tracks@[p.track_index as int].is_audio
            &&& !tracks@[p.track_index as int].codec_is_null
            &&& forall|j: int|
                0 <= j < p.track_index ==> !(#[trigger] tracks@[j]).is_audio
                    || tracks@[j].codec_is_null
            &&& p.track_id == tracks@[p.track_index as int].id
            &&& p.info@.sample_rate == tracks@[p.track_index as int].sample_rate.unwrap()
            &&& p.info@.n_samples == tracks@[p.track_index as int].num_frames.unwrap()
            &&& p.info@.path == Some(path@)
        },
        r matches Ok(p) ==> {
            &&& is_first_playable(tracks@, p.track_index as int)
            &&& p.track_id == tracks@[p.track_index as int].id
            &&& track_metadata(path@, opt_view(file_name), tracks@[p.track_index as int]) == Ok::<
                SignalInfoView,
                OpenError,
            >(p.info@)
        },
        r matches Err(e) ==> e == OpenError::NoAudioTrack || exists|i: int|
            is_first_playable(tracks@, i) && track_metadata(
                path@,
                opt_view(file_name),
                #[trigger] tracks@[i],
            ) == Err::<SignalInfoView, OpenError>(e),
{
    match first_playable_track(tracks) {
        None => Err(OpenError::NoAudioTrack),
        Some(i) => {
            let t = &tracks[i];
            match track_signal_info(path, file_name, t) {
                Ok(info) => Ok(StreamPlan { track_index: i, track_id: t.id, info }),
                Err(e) => {
                    assert(is_first_playable(tracks@, i as int));
                    Err(e)
                },
            }
        },
    }
}

// ---------------------------------------------------------------------------
// Reading packets
// ---------------------------------------------------------------------------

/// The outcome of asking the container for its next packet.
#[derive(Debug, Clone, Copy, PartialEq, Eq, Structural)]
pub enum PacketEvent {
    /// A packet of the given track was read.
    Packet { track_id: u32 },
    /// The container asks for the decoder to be reset.
    ResetRequired,
    /// Reading failed.
    ReadFailed,
    /// The container has no more packets: the end of the media.
    EndOfStream,
}

/// What the stream does next with the outcome of a packet read.
#[derive(Debug, Clone, Copy, PartialEq, Eq, Structural)]
pub enum PacketAction {
    /// Reset the decoder and read again.
    ResetDecoder,
    /// The packet belongs to another track: read again.
    Skip,
    /// Decode the packet.
    Decode,
    /// Give up with the read error.
    Fail,
    /// The stream is over: report that no chunk is left.
    Finish,
}

/// The reaction of a stream of track `track_id` to a packet read.
pub open spec fn packet_reaction(track_id: u32, event: PacketEvent) -> PacketAction {
    match event {
        PacketEvent::Packet { track_id: t } => if t == track_id {
            PacketAction::Decode
        } else {
            PacketAction::Skip
        },
        PacketEvent::ResetRequired => PacketAction::ResetDecoder,
        PacketEvent::ReadFailed => PacketAction::Fail,
        PacketEvent::EndOfStream => PacketAction::Finish,
    }
}

/// A stream decodes every packet of its own track, whatever the track's
/// identifier, and skips every packet of another track.
pub proof fn lemma_own_track_decoded(track_id: u32, other: u32)
    ensures
        packet_reaction(track_id, PacketEvent::Packet { track_id }) == PacketAction::Decode,
        other != track_id ==> packet_reaction(track_id, PacketEvent::Packet { track_id: other })
            == PacketAction::Skip,
        packet_reaction(track_id, PacketEvent::EndOfStream) == PacketAction::Finish,
{
}

/// Decides what a stream of track `track_id` does with a packet read.
pub fn next_packet_action(track_id: u32, event: PacketEvent) -> (r: PacketAction)
    ensures
        r == packet_reaction(track_id, event),
        event == (PacketEvent::Packet { track_id }) ==> r == PacketAction::Decode,
        forall|u: u32| u != track_id && event == (PacketEvent::Packet { track_id: u }) ==> r
            == PacketAction::Skip,
        event == PacketEvent::ResetRequired ==> r == PacketAction::ResetDecoder,
        event == PacketEvent::ReadFailed ==> r == PacketAction::Fail,
        event == PacketEvent::EndOfStream ==> r == PacketAction::Finish,
{
    match event {
        PacketEvent::Packet { track_id: t } => if t == track_id {
            PacketAction::Decode
        } else {
            PacketAction::Skip
        },
        PacketEvent::ResetRequired => PacketAction::ResetDecoder,
        PacketEvent::ReadFailed => PacketAction::Fail,
        PacketEvent::EndOfStream => PacketAction::Finish,
    }
}

/// Iterator for implementing overlap-save fast convolution.
#[derive(Debug, Clone, Copy, PartialEq, Eq, Structural)]
pub struct OverlapSaveIter {}

} // verus!
