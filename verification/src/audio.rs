//! Audio data: OGG/Vorbis decoding into interleaved samples, and the
//! mapping from track-selection messages to tracks. Device output and
//! the playback thread live outside the library.

use vstd::prelude::*;

use std::io::Cursor;

use lewton::inside_ogg::OggStreamReader;

use crate::assets::{
    AUDIO_MSG_PLAY_ENDING_SONG, AUDIO_MSG_PLAY_GAME_SONG, AUDIO_MSG_PLAY_TITLE_SCREEN_SONG,
};

verus! {

/// An open OGG/Vorbis stream over an in-memory buffer. Verus refuses to
/// declare lewton's generic reader type directly (its `Read + Seek`
/// bounds), so the reader is held opaquely in this struct; the wrappers
/// below are the only way in.
#[verifier::external_body]
struct OggReader {
    inner: OggStreamReader<Cursor<Vec<u8>>>,
}

/// Relies on lewton's `OggStreamReader::new`: reads the OGG/Vorbis
/// headers from the byte buffer; `None` when the data is not a valid
/// OGG/Vorbis stream. An empty buffer has no headers to read.
#[verifier::external_body]
fn ogg_open(data: &[u8]) -> (r: Option<OggReader>)
    ensures
        data@.len() == 0 ==> r is None,
{
    match OggStreamReader::new(Cursor::new(data.to_vec())) {
        Ok(inner) => Some(OggReader { inner }),
        Err(_) => None,
    }
}

/// Relies on lewton's public `IdentHeader` fields: the channel count and
/// sample rate that the stream's identification header declares.
#[verifier::external_body]
fn ogg_ident(rdr: &OggReader) -> (r: (u8, u32)) {
    (rdr.inner.ident_hdr.audio_channels, rdr.inner.ident_hdr.audio_sample_rate)
}

/// Relies on lewton's `read_dec_packet_itl`: decodes the next audio
/// packet into interleaved samples; `None` at the end of the stream or
/// on a read error.
#[verifier::external_body]
fn ogg_next_packet(rdr: &mut OggReader) -> (r: Option<Vec<i16>>) {
    match rdr.inner.read_dec_packet_itl() {
        Ok(Some(p)) => Some(p),
        _ => None,
    }
}

/// A fully decoded audio track.
pub struct Song {
    /// Interleaved samples.
    pub decoded: Vec<i16>,
    /// Playback rate: channel count times the stream's sample rate,
    /// saturated at `u32::MAX`.
    pub sample_rate: u32,
}

impl Song {
    /// Decodes an OGG/Vorbis byte buffer into a song: every packet's
    /// interleaved samples concatenated in stream order. `None` when the
    /// buffer is not a valid OGG/Vorbis stream; what the samples are is
    /// decided by the decoder alone.
    pub fn decode_from_bytes(data: &[u8]) -> (r: Option<Song>)
        ensures
            data@.len() == 0 ==> r is None,
    {
        let mut rdr = match ogg_open(data) {
            Some(r) => r,
            None => {
                return None;
            },
        };

        let (channels, rate) = ogg_ident(&rdr);
        proof {
            assert((channels as int) * (rate as int) <= 255 * 0xffff_ffff) by (nonlinear_arith)
                requires
                    0 <= channels as int <= 255,
                    0 <= rate as int <= 0xffff_ffff,
            ;
        }
        let wide: u64 = (channels as u64) * (rate as u64);
        let sample_rate: u32 = if wide > u32::MAX as u64 {
            u32::MAX
        } else {
            wide as u32
        };

        let mut decoded: Vec<i16> = Vec::new();
        // each OGG packet occupies at least one byte of the stream, so
        // the input length bounds the number of packets and the loop
        // terminates
        let mut fuel: usize = data.len();
        while fuel > 0
            decreases fuel,
        {
            match ogg_next_packet(&mut rdr) {
                Some(mut pck_samples) => {
                    decoded.append(&mut pck_samples);
                },
                None => {
                    break ;
                },
            }
            fuel = fuel - 1;
        }

        Some(Song { decoded, sample_rate })
    }
}

/// The decoded tracks the game ships.
#[derive(Debug, Copy, Clone, PartialEq, Eq, Structural)]
pub enum Track {
    TitleScreen,
    Game1,
    Ending,
}

/// Which track a track-selection message names, if any.
pub open spec fn track_for(msg: Seq<char>) -> Option<Track> {
    if msg == AUDIO_MSG_PLAY_TITLE_SCREEN_SONG@ {
        Some(Track::TitleScreen)
    } else if msg == AUDIO_MSG_PLAY_GAME_SONG@ {
        Some(Track::Game1)
    } else if msg == AUDIO_MSG_PLAY_ENDING_SONG@ {
        Some(Track::Ending)
    } else {
        None
    }
}

/// Resolves a track-selection message to a track. An unrecognized
/// message yields `None`: the playback layer logs and drops it, leaving
/// playback unaffected.
pub fn track_for_message(msg: &str) -> (r: Option<Track>)
    ensures
        r == track_for(msg@),
{
    let m: String = msg.to_owned();
    if m == AUDIO_MSG_PLAY_TITLE_SCREEN_SONG.to_owned() {
        Some(Track::TitleScreen)
    } else if m == AUDIO_MSG_PLAY_GAME_SONG.to_owned() {
        Some(Track::Game1)
    } else if m == AUDIO_MSG_PLAY_ENDING_SONG.to_owned() {
        Some(Track::Ending)
    } else {
        None
    }
}

} // verus!
