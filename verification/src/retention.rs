//! Recordings on disk: what their files are named, and which of them have expired.

use chrono::{DateTime, Duration, NaiveDateTime};
use vstd::prelude::*;

use crate::capture::fails_with;
use crate::text::{characters, concat, same_text};

verus! {

/// How the time at which a recording was made is written in its file's name.
pub const NAME_FORMAT: &'static str = "%Y%m%d_%H%M%S";

/// The directory in the user's home that the directory of the recordings lies in.
pub const RECORDINGS_PARENT: &'static str = "Library";

/// The name of the directory of the recordings.
pub const RECORDINGS_DIRECTORY: &'static str = "VoiceTranscripts";

/// The longest time for which recordings can be asked to be kept.
pub const MAX_RETENTION_DAYS: u32 = 3_650;

/// The seconds of the earliest moment that the calendar holds, the start of the year -262143.
pub const FIRST_SECOND: i64 = -8_334_601_228_800;

/// The seconds of the latest moment that the calendar holds, the end of the year 262142.
pub const LAST_SECOND: i64 = 8_210_266_876_799;

/// The seconds at which the year 0 begins.
pub const FOUR_DIGIT_YEARS_FIRST_SECOND: i64 = -62_167_219_200;

/// The seconds at which the year 9999 ends.
pub const FOUR_DIGIT_YEARS_LAST_SECOND: i64 = 253_402_300_799;

/// A moment of a clock on the wall: the seconds since the start of 1970, leap seconds not
/// counted, and the nanoseconds since then. In a leap second, which follows second 59 of a
/// minute, there are a thousand million nanoseconds more.
#[derive(Clone, Copy, Debug, PartialEq, Eq, Structural)]
pub struct Moment {
    pub seconds: i64,
    pub nanos: u32,
}

impl Moment {
    /// Whether there is such a moment.
    pub open spec fn valid(self) -> bool {
        &&& FIRST_SECOND <= self.seconds <= LAST_SECOND
        &&& self.nanos < 1_000_000_000 || (self.nanos < 2_000_000_000 && self.seconds % 60 == 59)
    }

    /// Whether the moment lies before another.
    pub open spec fn before(self, other: Moment) -> bool {
        self.seconds < other.seconds || (self.seconds == other.seconds && self.nanos < other.nanos)
    }

    /// The moment at which the second began.
    pub open spec fn whole(self) -> Moment {
        Moment {
            seconds: self.seconds,
            nanos: if self.nanos < 1_000_000_000 {
                0
            } else {
                1_000_000_000
            },
        }
    }

    /// The seconds of the moment a number of days earlier. A leap second is taken for the first
    /// second of the next minute.
    pub open spec fn seconds_days_earlier(self, days: u32) -> int {
        (if self.nanos < 1_000_000_000 {
            self.seconds as int
        } else {
            self.seconds + 1
        }) - 86_400 * days
    }

    /// The moment a number of days earlier.
    pub open spec fn days_earlier(self, days: u32) -> Moment {
        Moment {
            seconds: self.seconds_days_earlier(days) as i64,
            nanos: (self.nanos % 1_000_000_000) as u32,
        }
    }

    /// The nanoseconds that the clock counted since the start of 1970.
    pub open spec fn clock(self) -> int {
        self.seconds * 1_000_000_000 + self.nanos
    }

    /// Whether the moment lies in a year that is written with four digits.
    pub open spec fn in_four_digit_year(self) -> bool {
        FOUR_DIGIT_YEARS_FIRST_SECOND <= self.seconds <= FOUR_DIGIT_YEARS_LAST_SECOND
    }
}

/// What `NaiveDateTime::parse_from_str` reads from a text in a format: the seconds since the start
/// of 1970, and the nanoseconds since then.
pub uninterp spec fn stamp_read(text: Seq<char>, format: Seq<char>) -> Option<(i64, u32)>;

/// What `NaiveDateTime::format` writes of a moment in a format.
pub uninterp spec fn stamp_text(seconds: i64, nanos: u32, format: Seq<char>) -> Seq<char>;

/// `NaiveDateTime::parse_from_str` with the format of recordings' names: the moment that the text
/// stands for, and nothing where it stands for none.
#[verifier::external_body]
fn read_stamp(text: &str, format: &str) -> (r: Option<(i64, u32)>)
    requires
        format@ == NAME_FORMAT@,
    ensures
        r == stamp_read(text@, format@),
{
    let stamp = NaiveDateTime::parse_from_str(text, format).ok()?.and_utc();
    Some((stamp.timestamp(), stamp.timestamp_subsec_nanos()))
}

/// `NaiveDateTime::format` with the format of recordings' names: the text of the moment. In a year
/// of four digits it has fifteen characters, and `NaiveDateTime::parse_from_str` reads from it the
/// moment at which the second began.
#[verifier::external_body]
fn write_stamp(moment: Moment, format: &str) -> (r: String)
    requires
        moment.valid(),
        format@ == NAME_FORMAT@,
    ensures
        r@ == stamp_text(moment.seconds, moment.nanos, format@),
        moment.in_four_digit_year() ==> r@.len() == 15,
        moment.in_four_digit_year() ==> stamp_read(r@, format@) == Some(
            (moment.whole().seconds, moment.whole().nanos),
        ),
{
    let stamp = DateTime::from_timestamp(moment.seconds, moment.nanos).unwrap();
    stamp.naive_utc().format(format).to_string()
}

/// `NaiveDateTime - Duration::days`: the moment a number of days earlier, which the calendar has to
/// hold.
#[verifier::external_body]
fn subtract_days(moment: Moment, days: u32) -> (r: Moment)
    requires
        moment.valid(),
        days > 0,
        moment.seconds_days_earlier(days) >= FIRST_SECOND,
    ensures
        r == moment.days_earlier(days),
{
    let stamp = DateTime::from_timestamp(moment.seconds, moment.nanos).unwrap().naive_utc();
    let earlier = (stamp - Duration::days(i64::from(days))).and_utc();
    Moment { seconds: earlier.timestamp(), nanos: earlier.timestamp_subsec_nanos() }
}

/// The position of the last dot of a file's name, where there is one.
pub open spec fn last_dot(name: Seq<char>) -> Option<int>
    decreases name.len(),
{
    if name.len() == 0 {
        None
    } else if name.last() == '.' {
        Some(name.len() - 1)
    } else {
        last_dot(name.drop_last())
    }
}

/// The name of a file without its extension. A dot at the very start begins no extension.
pub open spec fn file_stem(name: Seq<char>) -> Seq<char> {
    match last_dot(name) {
        Some(dot) => if dot == 0 {
            name
        } else {
            name.take(dot)
        },
        None => name,
    }
}

/// The extension of a file's name.
pub open spec fn extension(name: Seq<char>) -> Option<Seq<char>> {
    match last_dot(name) {
        Some(dot) => if dot == 0 {
            None
        } else {
            Some(name.skip(dot + 1))
        },
        None => None,
    }
}

/// When the recording with the given file name was made, as the name tells.
pub open spec fn recorded_at(name: Seq<char>) -> Option<Moment> {
    match stamp_read(file_stem(name), NAME_FORMAT@) {
        Some((seconds, nanos)) => Some(Moment { seconds, nanos }),
        None => None,
    }
}

/// Whether a file is a recording that was made before the cutoff: a WAV file whose name tells an
/// earlier moment.
pub open spec fn expired(name: Seq<char>, cutoff: Moment) -> bool {
    &&& extension(name) == Some("wav"@)
    &&& recorded_at(name) is Some
    &&& recorded_at(name)->0.before(cutoff)
}

proof fn lemma_last_dot(name: Seq<char>, dot: int)
    requires
        0 <= dot < name.len(),
        name[dot] == '.',
        forall|k: int| dot < k < name.len() ==> #[trigger] name[k] != '.',
    ensures
        last_dot(name) == Some(dot),
    decreases name.len(),
{
    if dot < name.len() - 1 {
        assert(name[name.len() - 1] != '.');
        lemma_last_dot(name.drop_last(), dot);
    }
}

proof fn lemma_no_dot(name: Seq<char>)
    requires
        forall|k: int| 0 <= k < name.len() ==> #[trigger] name[k] != '.',
    ensures
        last_dot(name) is None,
    decreases name.len(),
{
    if name.len() > 0 {
        assert(name[name.len() - 1] != '.');
        lemma_no_dot(name.drop_last());
    }
}

/// The name of a file without its extension, and the extension.
pub fn split_file_name(name: &str) -> (r: (&str, Option<&str>))
    ensures
        r.0@ == file_stem(name@),
        match r.1 {
            Some(extension) => crate::retention::extension(name@) == Some(extension@),
            None => crate::retention::extension(name@) is None,
        },
{
    let chars = characters(name);
    let mut i: usize = chars.len();
    while i > 0 && chars[i - 1] != '.'
        invariant
            i <= chars.len(),
            forall|k: int| i <= k < chars.len() ==> #[trigger] chars@[k] != '.',
        decreases i,
    {
        i -= 1;
    }
    if i == 0 {
        proof {
            lemma_no_dot(name@);
        }
        return (name, None);
    }
    proof {
        lemma_last_dot(name@, i - 1);
    }
    if i == 1 {
        return (name, None);
    }
    let stem = name.substring_char(0, i - 1);
    let extension = name.substring_char(i, chars.len());
    assert(stem@ =~= name@.take(i - 1));
    assert(extension@ =~= name@.skip(i as int));
    (stem, Some(extension))
}

/// The name of the file of a recording that was made now. In a year of four digits, the name
/// tells when the recording was made, to the second.
pub fn recording_file_name(now: Moment) -> (name: String)
    requires
        now.valid(),
    ensures
        name@ == stamp_text(now.seconds, now.nanos, NAME_FORMAT@) + ".wav"@,
        now.in_four_digit_year() ==> extension(name@) == Some("wav"@),
        now.in_four_digit_year() ==> recorded_at(name@) == Some(now.whole()),
{
    let stamp = write_stamp(now, NAME_FORMAT);
    let name = concat(stamp.as_str(), ".wav");
    proof {
        reveal_strlit(".wav");
        reveal_strlit("wav");
        if now.in_four_digit_year() {
            let dot = stamp@.len() as int;
            assert(name@[dot + 1] == 'w' && name@[dot + 2] == 'a' && name@[dot + 3] == 'v');
            lemma_last_dot(name@, dot);
            assert(name@.take(dot) =~= stamp@);
            assert(name@.skip(dot + 1) =~= "wav"@);
        }
    }
    name
}

/// When the recording with the given file name was made, as the name tells.
pub fn recording_timestamp(name: &str) -> (r: Option<Moment>)
    ensures
        r == recorded_at(name@),
{
    let (stem, _) = split_file_name(name);
    match read_stamp(stem, NAME_FORMAT) {
        Some((seconds, nanos)) => Some(Moment { seconds, nanos }),
        None => None,
    }
}

/// Whether the first moment lies before the second.
pub fn is_before(a: Moment, b: Moment) -> (r: bool)
    ensures
        r == a.before(b),
{
    a.seconds < b.seconds || (a.seconds == b.seconds && a.nanos < b.nanos)
}

/// Whether a file is a recording that was made before the cutoff.
pub fn is_expired(name: &str, cutoff: Moment) -> (r: bool)
    ensures
        r == expired(name@, cutoff),
{
    let (_, extension) = split_file_name(name);
    match extension {
        Some(extension) => {
            if !same_text(extension, "wav") {
                return false;
            }
        },
        None => {
            return false;
        },
    }
    match recording_timestamp(name) {
        Some(timestamp) => is_before(timestamp, cutoff),
        None => false,
    }
}

/// What is wrong with the directory of the recordings.
pub enum DirectoryFailure {
    /// There is no home for it to lie in.
    NoHome,
    /// It could not be made, for this reason.
    NotMade(String),
    /// It could not be listed, for this reason.
    NotListed(String),
}

impl DirectoryFailure {
    /// How the failure is put into words.
    pub open spec fn in_words(self) -> Seq<char> {
        match self {
            DirectoryFailure::NoHome => "Could not locate the macOS home directory"@,
            DirectoryFailure::NotMade(error) => "Failed to create recordings directory: "@ + error@,
            DirectoryFailure::NotListed(error) => "Failed to read recordings directory: "@ + error@,
        }
    }

    /// How the failure is put into words.
    pub fn words(self) -> (words: String)
        ensures
            words@ == self.in_words(),
    {
        match self {
            DirectoryFailure::NoHome => "Could not locate the macOS home directory".to_owned(),
            DirectoryFailure::NotMade(error) => concat(
                "Failed to create recordings directory: ",
                error.as_str(),
            ),
            DirectoryFailure::NotListed(error) => concat(
                "Failed to read recordings directory: ",
                error.as_str(),
            ),
        }
    }
}

/// What a directory lists.
pub enum Listing {
    /// An entry that could not be read.
    Unreadable,
    /// An entry whose name is no text.
    Unnamed,
    /// An entry with a name.
    Named(String),
}

impl Listing {
    /// The name of the entry, where it has one.
    pub open spec fn name(self) -> Option<Seq<char>> {
        match self {
            Listing::Named(name) => Some(name@),
            _ => None,
        }
    }

    /// Whether the entry is a recording that was made before the cutoff.
    pub open spec fn expired(self, cutoff: Moment) -> bool {
        match self {
            Listing::Named(name) => expired(name@, cutoff),
            _ => false,
        }
    }
}

/// The moment before which recordings have expired, where they expire at all: with no days to keep
/// them they are kept for ever.
pub fn retention_cutoff(retention_days: u32, now: Moment) -> (r: Option<Moment>)
    requires
        now.valid(),
        retention_days > 0 ==> now.seconds_days_earlier(retention_days) >= FIRST_SECOND,
    ensures
        r == if retention_days == 0 {
            None
        } else {
            Some(now.days_earlier(retention_days))
        },
{
    if retention_days == 0 {
        return None;
    }
    Some(subtract_days(now, retention_days))
}

/// The positions of the entries that are recordings made before the cutoff, in order.
pub open spec fn expired_positions(entries: Seq<Listing>, cutoff: Moment) -> Seq<int>
    decreases entries.len(),
{
    if entries.len() == 0 {
        Seq::empty()
    } else {
        let before = expired_positions(entries.drop_last(), cutoff);
        if entries.last().expired(cutoff) {
            before.push(entries.len() - 1)
        } else {
            before
        }
    }
}

/// Which entries of a directory are to be deleted: the positions of those that are recordings made
/// before the cutoff, in order.
pub fn expired_recordings(entries: &Vec<Listing>, cutoff: Moment) -> (r: Vec<usize>)
    ensures
        r@.map_values(|i: usize| i as int) == expired_positions(entries@, cutoff),
{
    let mut positions: Vec<usize> = Vec::new();
    let mut i: usize = 0;
    while i < entries.len()
        invariant
            i <= entries.len(),
            positions@.map_values(|i: usize| i as int) == expired_positions(
                entries@.take(i as int),
                cutoff,
            ),
        decreases entries.len() - i,
    {
        assert(entries@.take(i + 1).drop_last() =~= entries@.take(i as int));
        let ghost before = positions@;
        if let Listing::Named(name) = &entries[i] {
            if is_expired(name.as_str(), cutoff) {
                positions.push(i);
                assert(positions@.map_values(|i: usize| i as int) =~= before.map_values(
                    |i: usize| i as int,
                ).push(i as int));
            }
        }
        i += 1;
    }
    assert(entries@.take(entries@.len() as int) =~= entries@);
    positions
}

/// Which entries of the directory of the recordings are to be deleted, given what listing it came
/// to: the positions of the recordings that are older than the days for which they are kept. With
/// no such days nothing is deleted, whatever became of the listing; otherwise a directory that
/// could not be listed is an error.
pub fn prune_recordings_in(
    listed: Result<&Vec<Listing>, String>,
    retention_days: u32,
    now: Moment,
) -> (r: Result<Vec<usize>, String>)
    requires
        now.valid(),
        retention_days > 0 ==> now.seconds_days_earlier(retention_days) >= FIRST_SECOND,
    ensures
        if retention_days == 0 {
            r is Ok && r->Ok_0@.len() == 0
        } else {
            match listed {
                Ok(entries) => r is Ok && r->Ok_0@.map_values(|i: usize| i as int)
                    == expired_positions(entries@, now.days_earlier(retention_days)),
                Err(error) => fails_with(r, "Failed to read recordings directory: "@ + error@),
            }
        },
{
    let cutoff = match retention_cutoff(retention_days, now) {
        Some(cutoff) => cutoff,
        None => {
            return Ok(Vec::new());
        },
    };
    match listed {
        Ok(entries) => Ok(expired_recordings(entries, cutoff)),
        Err(error) => Err(DirectoryFailure::NotListed(error).words()),
    }
}

/// Only expired recordings are deleted, and all of them: a position is among those to be deleted
/// exactly when the entry there has a name with the extension of a WAV file that tells a moment
/// before the cutoff. Each comes once, in the order of the entries.
pub proof fn retention_deletes_exactly_expired_recordings(entries: Seq<Listing>, cutoff: Moment)
    ensures
        forall|i: int| #[trigger]
            expired_positions(entries, cutoff).contains(i) <==> 0 <= i < entries.len()
                && entries[i].expired(cutoff),
        forall|j: int, k: int|
            0 <= j < k < expired_positions(entries, cutoff).len() ==> #[trigger] expired_positions(
                entries,
                cutoff,
            )[j] < #[trigger] expired_positions(entries, cutoff)[k],
    decreases entries.len(),
{
    if entries.len() > 0 {
        let before = entries.drop_last();
        retention_deletes_exactly_expired_recordings(before, cutoff);
        let last = entries.len() - 1;
        let positions = expired_positions(before, cutoff);
        assert forall|j: int| 0 <= j < positions.len() implies 0 <= #[trigger] positions[j]
            < last by {
            assert(positions.contains(positions[j]));
        }
        let all = expired_positions(entries, cutoff);
        assert forall|i: int| #[trigger] all.contains(i) <==> 0 <= i < entries.len()
            && entries[i].expired(cutoff) by {
            if all.contains(i) {
                let j = choose|j: int| 0 <= j < all.len() && all[j] == i;
                if j < positions.len() {
                    assert(positions[j] == i);
                    assert(positions.contains(i));
                    assert(before[i] == entries[i]);
                }
            }
            if 0 <= i < entries.len() && entries[i].expired(cutoff) {
                if i < last {
                    assert(before[i] == entries[i]);
                    assert(positions.contains(i));
                    let j = choose|j: int| 0 <= j < positions.len() && positions[j] == i;
                    assert(all[j] == i);
                } else {
                    assert(all[all.len() - 1] == i);
                }
            }
        }
    }
}

/// A recording is kept while it is younger than the days for which recordings are kept, and is
/// deleted once it is older. Its age counts from the second that its name tells.
pub proof fn recordings_expire_with_age(name: Seq<char>, made: Moment, now: Moment, days: u32)
    requires
        made.valid(),
        now.valid(),
        days > 0,
        now.seconds_days_earlier(days) >= FIRST_SECOND,
        extension(name) == Some("wav"@),
        recorded_at(name) == Some(made.whole()),
    ensures
        now.clock() - made.whole().clock() < days * 86_400_000_000_000 ==> !expired(
            name,
            now.days_earlier(days),
        ),
        now.clock() - made.whole().clock() > days * 86_400_000_000_000 ==> expired(
            name,
            now.days_earlier(days),
        ),
{
}

/// What is deleted with a longer retention is deleted with a shorter one too.
pub proof fn longer_retentions_delete_no_more(
    entry: Listing,
    now: Moment,
    days: u32,
    more_days: u32,
)
    requires
        now.valid(),
        0 < days <= more_days,
        now.seconds_days_earlier(more_days) >= FIRST_SECOND,
        entry.expired(now.days_earlier(more_days)),
    ensures
        entry.expired(now.days_earlier(days)),
{
}

/// Whether a later listing of a directory holds nothing but entries of an earlier one that were
/// not to be deleted.
pub open spec fn left_over(before: Seq<Listing>, after: Seq<Listing>, cutoff: Moment) -> bool {
    forall|j: int|
        0 <= j < after.len() ==> exists|i: int|
            #![trigger before[i]]
            0 <= i < before.len() && before[i].name() == (#[trigger] after[j]).name()
                && !expired_positions(before, cutoff).contains(i)
}

/// Once all expired recordings were deleted, deleting again at the same moment, with the same or a
/// longer retention, deletes nothing and frees nothing.
pub proof fn pruning_again_deletes_nothing(
    before: Seq<Listing>,
    after: Seq<Listing>,
    now: Moment,
    days: u32,
    more_days: u32,
)
    requires
        now.valid(),
        0 < days <= more_days,
        now.seconds_days_earlier(more_days) >= FIRST_SECOND,
        left_over(before, after, now.days_earlier(days)),
    ensures
        expired_positions(after, now.days_earlier(more_days)) == Seq::<int>::empty(),
        deleted_count(Seq::empty()) == 0,
        freed_bytes(Seq::empty()) == 0,
{
    let cutoff = now.days_earlier(days);
    let earlier = now.days_earlier(more_days);
    retention_deletes_exactly_expired_recordings(before, cutoff);
    retention_deletes_exactly_expired_recordings(after, earlier);
    let positions = expired_positions(after, earlier);
    if positions.len() > 0 {
        let j = positions[0];
        assert(positions.contains(j));
        assert(after[j].expired(earlier));
        longer_retentions_delete_no_more(after[j], now, days, more_days);
        let i = choose|i: int|
            #![trigger before[i]]
            0 <= i < before.len() && before[i].name() == after[j].name()
                && !expired_positions(before, cutoff).contains(i);
        assert(before[i].expired(cutoff));
        assert(false);
    }
    assert(positions =~= Seq::<int>::empty());
}

/// What became of a recording that was to be deleted.
pub enum Removal {
    /// It was deleted, which freed this many bytes.
    Deleted(u64),
    /// It could not be deleted.
    Failed,
}

/// What became of the recordings of a directory.
#[derive(Clone, Copy, Debug, PartialEq, Eq, Structural)]
pub struct RecordingPruneResult {
    pub deleted_count: u64,
    pub freed_bytes: u64,
    pub failed_count: u64,
}

/// How many entries could not be read.
pub open spec fn unreadable_count(entries: Seq<Listing>) -> nat
    decreases entries.len(),
{
    if entries.len() == 0 {
        0
    } else {
        unreadable_count(entries.drop_last()) + if entries.last() is Unreadable {
            1nat
        } else {
            0
        }
    }
}

/// How many removals succeeded.
pub open spec fn deleted_count(removals: Seq<Removal>) -> nat
    decreases removals.len(),
{
    if removals.len() == 0 {
        0
    } else {
        deleted_count(removals.drop_last()) + if removals.last() is Deleted {
            1nat
        } else {
            0
        }
    }
}

/// How many bytes the removals freed.
pub open spec fn freed_bytes(removals: Seq<Removal>) -> nat
    decreases removals.len(),
{
    if removals.len() == 0 {
        0
    } else {
        freed_bytes(removals.drop_last()) + match removals.last() {
            Removal::Deleted(bytes) => bytes as nat,
            Removal::Failed => 0,
        }
    }
}

proof fn lemma_counts_are_bounded(entries: Seq<Listing>, removals: Seq<Removal>)
    ensures
        unreadable_count(entries) <= entries.len(),
        deleted_count(removals) <= removals.len(),
    decreases entries.len() + removals.len(),
{
    if entries.len() > 0 {
        lemma_counts_are_bounded(entries.drop_last(), removals);
    } else if removals.len() > 0 {
        lemma_counts_are_bounded(entries, removals.drop_last());
    }
}

/// Counts what became of the recordings of a directory: those that were deleted, the bytes that
/// this freed, as far as a word can count them, and the entries that could not be read or deleted.
pub fn prune_result(entries: &Vec<Listing>, removals: &Vec<Removal>) -> (r: RecordingPruneResult)
    requires
        entries@.len() + removals@.len() <= u64::MAX,
    ensures
        r.deleted_count == deleted_count(removals@),
        r.freed_bytes == if freed_bytes(removals@) > u64::MAX {
            u64::MAX as nat
        } else {
            freed_bytes(removals@)
        },
        r.failed_count == unreadable_count(entries@) + removals@.len() - deleted_count(removals@),
{
    let mut result = RecordingPruneResult { deleted_count: 0, freed_bytes: 0, failed_count: 0 };
    let mut i: usize = 0;
    while i < entries.len()
        invariant
            i <= entries.len(),
            entries@.len() + removals@.len() <= u64::MAX,
            result.deleted_count == 0,
            result.freed_bytes == 0,
            result.failed_count == unreadable_count(entries@.take(i as int)),
        decreases entries.len() - i,
    {
        assert(entries@.take(i + 1).drop_last() =~= entries@.take(i as int));
        proof {
            lemma_counts_are_bounded(entries@.take(i as int), removals@);
        }
        if let Listing::Unreadable = &entries[i] {
            result.failed_count = result.failed_count + 1;
        }
        i += 1;
    }
    assert(entries@.take(entries@.len() as int) =~= entries@);
    let mut j: usize = 0;
    while j < removals.len()
        invariant
            j <= removals.len(),
            entries@.len() + removals@.len() <= u64::MAX,
            result.deleted_count == deleted_count(removals@.take(j as int)),
            result.freed_bytes == if freed_bytes(removals@.take(j as int)) > u64::MAX {
                u64::MAX as nat
            } else {
                freed_bytes(removals@.take(j as int))
            },
            result.failed_count == unreadable_count(entries@) + j - deleted_count(
                removals@.take(j as int),
            ),
        decreases removals.len() - j,
    {
        assert(removals@.take(j + 1).drop_last() =~= removals@.take(j as int));
        proof {
            lemma_counts_are_bounded(entries@, removals@.take(j as int));
        }
        match &removals[j] {
            Removal::Deleted(bytes) => {
                result.deleted_count = result.deleted_count + 1;
                result.freed_bytes = result.freed_bytes.saturating_add(*bytes);
            },
            Removal::Failed => {
                result.failed_count = result.failed_count + 1;
            },
        }
        j += 1;
    }
    assert(removals@.take(removals@.len() as int) =~= removals@);
    result
}

/// Whether recordings can be asked to be kept for so many days.
pub fn check_retention(retention_days: u32) -> (r: Result<(), String>)
    ensures
        if retention_days > MAX_RETENTION_DAYS {
            fails_with(r, "Recording retention must be between 0 and 3650 days"@)
        } else {
            r is Ok
        },
{
    if retention_days > MAX_RETENTION_DAYS {
        return Err("Recording retention must be between 0 and 3650 days".to_owned());
    }
    Ok(())
}

/// One moment lies before another exactly when its second does, or within the second its
/// nanosecond.
pub proof fn moments_are_ordered_by_second_and_nanosecond(a: Moment, b: Moment, c: Moment)
    ensures
        a.before(b) <==> a.seconds * 0x1_0000_0000 + a.nanos < b.seconds * 0x1_0000_0000 + b.nanos,
        !a.before(a),
        a.before(b) && b.before(c) ==> a.before(c),
        a != b ==> a.before(b) || b.before(a),
{
}

/// The moment some days earlier is that many times 86400 seconds earlier by the clock, and lies in
/// no leap second.
pub proof fn days_are_86400_seconds(moment: Moment, days: u32)
    requires
        moment.valid(),
        moment.seconds * 1_000_000_000 + moment.nanos - days * 86_400_000_000_000 >= FIRST_SECOND
            * 1_000_000_000,
    ensures
        moment.seconds_days_earlier(days) >= FIRST_SECOND,
        moment.days_earlier(days).seconds * 1_000_000_000 + moment.days_earlier(days).nanos
            == moment.seconds * 1_000_000_000 + moment.nanos - days * 86_400_000_000_000,
        moment.days_earlier(days).nanos < 1_000_000_000,
{
}

/// The start of a second is in that second, less than a second before every moment of it, at no
/// part of a second. A leap second is a second of its own.
pub proof fn seconds_begin_at_whole_nanoseconds(moment: Moment)
    requires
        moment.valid(),
    ensures
        moment.whole().seconds == moment.seconds,
        moment.whole().nanos % 1_000_000_000 == 0,
        moment.whole().nanos <= moment.nanos < moment.whole().nanos + 1_000_000_000,
        moment.whole().valid(),
{
}

proof fn lemma_last_dot_shape(name: Seq<char>)
    ensures
        match last_dot(name) {
            Some(dot) => 0 <= dot < name.len() && name[dot] == '.' && (forall|k: int|
                dot < k < name.len() ==> #[trigger] name[k] != '.'),
            None => forall|k: int| 0 <= k < name.len() ==> #[trigger] name[k] != '.',
        },
    decreases name.len(),
{
    if name.len() > 0 && name.last() != '.' {
        let before = name.drop_last();
        lemma_last_dot_shape(before);
        match last_dot(name) {
            Some(dot) => {
                assert forall|k: int| dot < k < name.len() implies #[trigger] name[k] != '.' by {
                    if k < before.len() {
                        assert(before[k] == name[k]);
                    }
                }
            },
            None => {
                assert forall|k: int| 0 <= k < name.len() implies #[trigger] name[k] != '.' by {
                    if k < before.len() {
                        assert(before[k] == name[k]);
                    }
                }
            },
        }
    }
}

/// A name with an extension is its stem, which is not empty, a dot, and the extension, in which
/// there is no dot. A name without one is its own stem, and has no dot but perhaps at its start.
pub proof fn names_are_stems_and_extensions(name: Seq<char>)
    ensures
        extension(name) matches Some(suffix) ==> name == file_stem(name) + seq!['.'] + suffix
            && file_stem(name).len() > 0 && !suffix.contains('.'),
        extension(name) is None ==> file_stem(name) == name && (forall|k: int|
            0 < k < name.len() ==> #[trigger] name[k] != '.'),
{
    lemma_last_dot_shape(name);
    if let Some(suffix) = extension(name) {
        let dot = last_dot(name)->0;
        assert(name =~= file_stem(name) + seq!['.'] + suffix);
        assert forall|k: int| 0 <= k < suffix.len() implies #[trigger] suffix[k] != '.' by {
            assert(suffix[k] == name[dot + 1 + k]);
        }
    }
}

/// A file has expired exactly when its name is the time of a recording, as `YYYYMMDD_HHMMSS`,
/// followed by `.wav`, and that time lies before the cutoff, by the second and then by the
/// nanosecond. Nothing else about the name, the time or the cutoff plays a part.
pub proof fn files_expire_by_the_time_in_their_names(name: Seq<char>, cutoff: Moment)
    ensures
        expired(name, cutoff) <==> exists|stamp: Seq<char>|
            {
                &&& #[trigger] stamp_read(stamp, "%Y%m%d_%H%M%S"@) matches Some((seconds, nanos))
                &&& name == stamp + ".wav"@
                &&& stamp.len() > 0
                &&& seconds * 0x1_0000_0000 + nanos < cutoff.seconds * 0x1_0000_0000 + cutoff.nanos
            },
{
    reveal_strlit(".wav");
    reveal_strlit("wav");
    assert(".wav"@ =~= seq!['.'] + "wav"@);
    names_are_stems_and_extensions(name);
    if expired(name, cutoff) {
        let stamp = file_stem(name);
        assert(stamp_read(stamp, "%Y%m%d_%H%M%S"@) is Some);
        assert(name =~= stamp + ".wav"@);
    }
    if exists|stamp: Seq<char>|
        {
            &&& #[trigger] stamp_read(stamp, "%Y%m%d_%H%M%S"@) matches Some((seconds, nanos))
            &&& name == stamp + ".wav"@
            &&& stamp.len() > 0
            &&& seconds * 0x1_0000_0000 + nanos < cutoff.seconds * 0x1_0000_0000 + cutoff.nanos
        } {
        let stamp = choose|stamp: Seq<char>|
            {
                &&& #[trigger] stamp_read(stamp, "%Y%m%d_%H%M%S"@) matches Some((seconds, nanos))
                &&& name == stamp + ".wav"@
                &&& stamp.len() > 0
                &&& seconds * 0x1_0000_0000 + nanos < cutoff.seconds * 0x1_0000_0000 + cutoff.nanos
            };
        let dot = stamp.len() as int;
        assert(name[dot] == '.' && name[dot + 1] == 'w' && name[dot + 2] == 'a' && name[dot + 3]
            == 'v');
        lemma_last_dot(name, dot);
        assert(name.take(dot) =~= stamp);
        assert(name.skip(dot + 1) =~= "wav"@);
    }
}

/// The time of a recording is what its name without the extension stands for, to the nanosecond.
pub proof fn recordings_were_made_when_their_names_say(name: Seq<char>, made: Moment)
    ensures
        recorded_at(name) == Some(made) <==> stamp_read(file_stem(name), "%Y%m%d_%H%M%S"@) == Some(
            (made.seconds, made.nanos),
        ),
        recorded_at(name) is None <==> stamp_read(file_stem(name), "%Y%m%d_%H%M%S"@) is None,
{
}

/// An entry has expired exactly when it has a name and the file of that name has.
pub proof fn only_named_entries_expire(name: String, cutoff: Moment)
    ensures
        Listing::Named(name).expired(cutoff) <==> expired(name@, cutoff),
        !Listing::Unnamed.expired(cutoff),
        !Listing::Unreadable.expired(cutoff),
{
}

/// Every entry is judged by itself: one more entry is deleted, after those that are, exactly when
/// it has expired, and changes nothing about the others.
pub proof fn entries_are_judged_one_by_one(entries: Seq<Listing>, entry: Listing, cutoff: Moment)
    ensures
        expired_positions(Seq::empty(), cutoff).len() == 0,
        expired_positions(entries.push(entry), cutoff) == if entry.expired(cutoff) {
            expired_positions(entries, cutoff).push(entries.len() as int)
        } else {
            expired_positions(entries, cutoff)
        },
{
    assert(entries.push(entry).drop_last() =~= entries);
}

/// Counting goes one by one: an unreadable entry, a deleted recording and each of its bytes counts
/// once, and nothing else does.
pub proof fn counts_go_one_by_one(
    entries: Seq<Listing>,
    entry: Listing,
    removals: Seq<Removal>,
    bytes: u64,
)
    ensures
        unreadable_count(Seq::empty()) == 0,
        unreadable_count(entries.push(entry)) == unreadable_count(entries) + if entry is Unreadable {
            1int
        } else {
            0
        },
        deleted_count(Seq::empty()) == 0,
        deleted_count(removals.push(Removal::Deleted(bytes))) == deleted_count(removals) + 1,
        deleted_count(removals.push(Removal::Failed)) == deleted_count(removals),
        freed_bytes(Seq::empty()) == 0,
        freed_bytes(removals.push(Removal::Deleted(bytes))) == freed_bytes(removals) + bytes,
        freed_bytes(removals.push(Removal::Failed)) == freed_bytes(removals),
{
    assert(entries.push(entry).drop_last() =~= entries);
    assert(removals.push(Removal::Deleted(bytes)).drop_last() =~= removals);
    assert(removals.push(Removal::Failed).drop_last() =~= removals);
}

/// What is wrong with the directory is told with its reason in full.
pub proof fn directory_failures_tell_their_reason(reason: String)
    ensures
        DirectoryFailure::NoHome.in_words() == "Could not locate the macOS home directory"@,
        DirectoryFailure::NotMade(reason).in_words() == "Failed to create recordings directory: "@
            + reason@,
        DirectoryFailure::NotListed(reason).in_words() == "Failed to read recordings directory: "@
            + reason@,
{
}

/// There are moments from the year -262143 to the year 262142, and leap seconds only at the end of
/// a minute; those of the years 0 to 9999 are written with four digits.
pub proof fn moments_lie_in_the_calendar(moment: Moment)
    ensures
        moment.valid() <==> -8_334_601_228_800 <= moment.seconds <= 8_210_266_876_799 && (
        moment.nanos < 1_000_000_000 || moment.nanos < 2_000_000_000 && moment.seconds % 60 == 59),
        moment.in_four_digit_year() <==> -62_167_219_200 <= moment.seconds <= 253_402_300_799,
{
}

} // verus!
