//! The library's track record, as far as playback reads it.

use vstd::prelude::*;

verus! {

/// Identifier of a track in the library.
pub type TrackId = i64;

/// A track of the library: where its file is and the format it was decoded with
/// when it was scanned.
#[derive(Clone, Debug)]
pub struct Track {
    pub id: TrackId,
    pub file_path: String,
    pub file_format: String,
    pub sample_rate: i64,
    pub channels: i64,
    pub frames: i64,
}

} // verus!

verus! {

/// A count read from a file as the library stores it: zero when the file does not
/// give it, and the count as a signed 64-bit integer otherwise (wrapping past
/// `i64::MAX`).
pub open spec fn stored_count(count: Option<u64>) -> i64 {
    match count {
        Some(count) => count as i64,
        None => 0,
    }
}

impl Track {
    /// The record of the track file at `file_path`, of format `file_format`, from
    /// what its audio stream's codec parameters give: the sample rate, the channel
    /// count and the number of frames, each stored as zero when not given.
    pub fn from_properties(
        id: TrackId,
        file_path: String,
        file_format: String,
        sample_rate: Option<u32>,
        channels: Option<usize>,
        frames: Option<u64>,
    ) -> (track: Track)
        ensures
            track.id == id,
            track.file_path == file_path,
            track.file_format == file_format,
            track.sample_rate == match sample_rate {
                Some(rate) => rate as i64,
                None => 0,
            },
            track.channels == stored_count(
                match channels {
                    Some(count) => Some(count as u64),
                    None => None,
                },
            ),
            track.frames == stored_count(frames),
            channels is Some && channels->0 <= i64::MAX ==> track.channels == channels->0,
            frames is Some && frames->0 <= i64::MAX ==> track.frames == frames->0,
    {
        let sample_rate: i64 = match sample_rate {
            Some(rate) => rate as i64,
            None => 0,
        };
        let channels: i64 = match channels {
            Some(count) => count as u64 as i64,
            None => 0,
        };
        let frames: i64 = match frames {
            Some(count) => count as i64,
            None => 0,
        };
        Track { id, file_path, file_format, sample_rate, channels, frames }
    }

    /// A copy of the track record.
    pub fn duplicate(&self) -> (copy: Track)
        ensures
            copy == *self,
    {
        Track {
            id: self.id,
            file_path: self.file_path.clone(),
            file_format: self.file_format.clone(),
            sample_rate: self.sample_rate,
            channels: self.channels,
            frames: self.frames,
        }
    }
}

} // verus!

verus! {

/// The tags of a track file that the library keeps, as the decoding library names them.
#[derive(Clone, Copy, Debug, PartialEq, Eq, Structural)]
pub enum StandardTag {
    TrackTitle,
    Artist,
    Album,
    AlbumArtist,
    TrackNumber,
    DiscNumber,
    Date,
    Genre,
    /// Any tag the library does not keep.
    Other,
}

/// Value of a string of ASCII decimal digits.
pub open spec fn decimal_value(digits: Seq<char>) -> int
    decreases digits.len(),
{
    if digits.len() == 0 {
        0
    } else {
        decimal_value(digits.drop_last()) * 10 + (digits.last() as int - '0' as int)
    }
}

/// The integer that `i64::from_str` reads from `text`: an optional `+` or `-` sign
/// followed by one or more ASCII digits and nothing else, whose value fits in 64 bits.
pub open spec fn spec_parse_i64(text: Seq<char>) -> Option<i64> {
    let negative = text.len() > 0 && text[0] == '-';
    let digits = if text.len() > 0 && (text[0] == '-' || text[0] == '+') {
        text.skip(1)
    } else {
        text
    };
    let value = if negative {
        -decimal_value(digits)
    } else {
        decimal_value(digits)
    };
    if digits.len() > 0 && (forall|i: int| 0 <= i < digits.len() ==> '0' <= #[trigger] digits[i] <= '9')
        && i64::MIN <= value <= i64::MAX {
        Some(value as i64)
    } else {
        None
    }
}

/// Reads a decimal integer (`str::parse::<i64>`).
///
/// Trusted contract: the result is `spec_parse_i64` of the text, as the standard
/// library documents the accepted form: an optional sign and digits only.
#[verifier::external_body]
pub(crate) fn parse_integer(text: &str) -> (parsed: Option<i64>)
    ensures
        parsed == spec_parse_i64(text@),
{
    text.parse::<i64>().ok()
}

/// The tags of a track: text tags as they are, number tags read as integers.
#[derive(Clone, Debug, PartialEq, Eq)]
pub struct TrackTags {
    pub title: Option<String>,
    pub artist: Option<String>,
    pub album: Option<String>,
    pub album_artist: Option<String>,
    pub track_number: Option<i64>,
    pub disc_number: Option<i64>,
    pub year: Option<i64>,
    pub genre: Option<String>,
}

/// `tags` after taking in the tag `key` with text `value` (see `TrackTags::apply_tag`).
pub open spec fn tag_applied(tags: TrackTags, key: StandardTag, value: String) -> TrackTags {
    match key {
        StandardTag::TrackTitle => TrackTags { title: Some(value), ..tags },
        StandardTag::Artist => TrackTags { artist: Some(value), ..tags },
        StandardTag::Album => TrackTags { album: Some(value), ..tags },
        StandardTag::AlbumArtist => TrackTags { album_artist: Some(value), ..tags },
        StandardTag::TrackNumber => TrackTags { track_number: spec_parse_i64(value@), ..tags },
        StandardTag::DiscNumber => TrackTags { disc_number: spec_parse_i64(value@), ..tags },
        StandardTag::Date => TrackTags { year: spec_parse_i64(value@), ..tags },
        StandardTag::Genre => TrackTags { genre: Some(value), ..tags },
        StandardTag::Other => tags,
    }
}

/// `tags` after taking in each of `applied` in turn, so that a later tag of a kind
/// wins over an earlier one.
pub open spec fn tags_applied(tags: TrackTags, applied: Seq<(StandardTag, String)>) -> TrackTags
    decreases applied.len(),
{
    if applied.len() == 0 {
        tags
    } else {
        let (key, value) = applied.last();
        tag_applied(tags_applied(tags, applied.drop_last()), key, value)
    }
}

/// Each kept tag writes its own field and no other: a text tag (title, artist,
/// album, album artist, genre) sets its field to the tag's text, a number tag
/// (track number, disc number, date as the year) sets its field to the integer the
/// text reads as, every other field stays as it was, and only a tag the library
/// does not keep leaves the tags unchanged.
pub proof fn lemma_tag_writes_its_own_field(tags: TrackTags, key: StandardTag, value: String)
    ensures
        tag_applied(tags, key, value).title == if key == StandardTag::TrackTitle {
            Some(value)
        } else {
            tags.title
        },
        tag_applied(tags, key, value).artist == if key == StandardTag::Artist {
            Some(value)
        } else {
            tags.artist
        },
        tag_applied(tags, key, value).album == if key == StandardTag::Album {
            Some(value)
        } else {
            tags.album
        },
        tag_applied(tags, key, value).album_artist == if key == StandardTag::AlbumArtist {
            Some(value)
        } else {
            tags.album_artist
        },
        tag_applied(tags, key, value).genre == if key == StandardTag::Genre {
            Some(value)
        } else {
            tags.genre
        },
        tag_applied(tags, key, value).track_number == if key == StandardTag::TrackNumber {
            spec_parse_i64(value@)
        } else {
            tags.track_number
        },
        tag_applied(tags, key, value).disc_number == if key == StandardTag::DiscNumber {
            spec_parse_i64(value@)
        } else {
            tags.disc_number
        },
        tag_applied(tags, key, value).year == if key == StandardTag::Date {
            spec_parse_i64(value@)
        } else {
            tags.year
        },
        (tag_applied(tags, key, value) == tags) <== (key == StandardTag::Other),
{
}

/// Applying a text tag to tags that lack it always records it: after taking in a
/// title, artist, album, album artist or genre, the tags hold that text where they
/// held nothing before, so no kept text tag is ever dropped.
pub proof fn lemma_text_tags_are_recorded(tags: TrackTags, key: StandardTag, value: String)
    requires
        key == StandardTag::TrackTitle || key == StandardTag::Artist || key == StandardTag::Album
            || key == StandardTag::AlbumArtist || key == StandardTag::Genre,
    ensures
        tag_applied(tags, key, value) != tags || (match key {
            StandardTag::TrackTitle => tags.title == Some(value),
            StandardTag::Artist => tags.artist == Some(value),
            StandardTag::Album => tags.album == Some(value),
            StandardTag::AlbumArtist => tags.album_artist == Some(value),
            _ => tags.genre == Some(value),
        }),
{
    lemma_tag_writes_its_own_field(tags, key, value);
}

impl TrackTags {
    /// Takes in the tags of a file in the order it gives them (see `tags_applied`).
    pub fn apply_tags(&mut self, applied: &Vec<(StandardTag, String)>)
        ensures
            *final(self) == tags_applied(*old(self), applied@),
    {
        let mut index: usize = 0;
        while index < applied.len()
            invariant
                index <= applied@.len(),
                *self == tags_applied(*old(self), applied@.take(index as int)),
            decreases applied@.len() - index,
        {
            let key = applied[index].0;
            let value = applied[index].1.clone();
            self.apply_tag(key, value);
            proof {
                assert(applied@.take(index + 1).drop_last() =~= applied@.take(index as int));
            }
            index = index + 1;
        }
        proof {
            assert(applied@.take(applied@.len() as int) =~= applied@);
        }
    }

    /// No tags.
    pub fn new() -> (tags: Self)
        ensures
            tags.title is None && tags.artist is None && tags.album is None && tags.album_artist is None,
            tags.track_number is None && tags.disc_number is None && tags.year is None,
            tags.genre is None,
    {
        TrackTags {
            title: None,
            artist: None,
            album: None,
            album_artist: None,
            track_number: None,
            disc_number: None,
            year: None,
            genre: None,
        }
    }

    /// Takes in one tag of the file: a text tag replaces the kept value; a track
    /// number, disc number or date replaces it with the integer it reads as (or with
    /// nothing when it does not read as one); other tags are ignored.
    pub fn apply_tag(&mut self, key: StandardTag, value: String)
        ensures
            *final(self) == tag_applied(*old(self), key, value),
    {
        match key {
            StandardTag::TrackTitle => self.title = Some(value),
            StandardTag::Artist => self.artist = Some(value),
            StandardTag::Album => self.album = Some(value),
            StandardTag::AlbumArtist => self.album_artist = Some(value),
            StandardTag::TrackNumber => self.track_number = parse_integer(value.as_str()),
            StandardTag::DiscNumber => self.disc_number = parse_integer(value.as_str()),
            StandardTag::Date => self.year = parse_integer(value.as_str()),
            StandardTag::Genre => self.genre = Some(value),
            StandardTag::Other => {},
        }
    }
}

} // verus!
