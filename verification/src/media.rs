//! The media that a room plays. The server describes a stream by its slug and
//! the names of its playlists; it never reads the media itself.

use crate::protocol::{
    clone_streams, views, PlayState, Stream, StreamInfo, StreamInfoView, StreamView,
};
use crate::time::MediaSpan;
use vstd::prelude::*;

verus! {

/// What is shown of a stream on the page of its room.
#[derive(Debug, PartialEq, Eq)]
pub struct StreamMetadata {
    pub title: String,
    pub duration: String,
    pub imdb: Option<String>,
}

/// The mathematical content of a [`StreamMetadata`].
pub struct StreamMetadataView {
    pub title: Seq<char>,
    pub duration: Seq<char>,
    pub imdb: Option<Seq<char>>,
}

impl View for StreamMetadata {
    type V = StreamMetadataView;

    open spec fn view(&self) -> StreamMetadataView {
        StreamMetadataView {
            title: self.title@,
            duration: self.duration@,
            imdb: match self.imdb {
                Some(url) => Some(url@),
                None => None,
            },
        }
    }
}

impl Clone for StreamMetadata {
    fn clone(&self) -> (copy: Self)
        ensures
            copy@ == self@,
    {
        StreamMetadata {
            title: self.title.clone(),
            duration: self.duration.clone(),
            imdb: match &self.imdb {
                Some(url) => Some(url.clone()),
                None => None,
            },
        }
    }
}

/// The name of a room and what is shown of its stream.
#[derive(Debug, PartialEq, Eq)]
pub struct RoomMetadata {
    pub name: String,
    pub stream: StreamMetadata,
}

/// The mathematical content of a [`RoomMetadata`].
pub struct RoomMetadataView {
    pub name: Seq<char>,
    pub stream: StreamMetadataView,
}

impl View for RoomMetadata {
    type V = RoomMetadataView;

    open spec fn view(&self) -> RoomMetadataView {
        RoomMetadataView { name: self.name@, stream: self.stream@ }
    }
}

/// A media stream with its renditions.
#[derive(Debug, PartialEq, Eq)]
pub struct MediaStream {
    pub slug: String,
    pub name: String,
    pub streams: Vec<Stream>,
    pub meta: StreamMetadata,
}

/// The mathematical content of a [`MediaStream`].
pub struct MediaStreamView {
    pub slug: Seq<char>,
    pub name: Seq<char>,
    pub streams: Seq<StreamView>,
    pub meta: StreamMetadataView,
}

impl MediaStreamView {
    /// The stream as a joining participant is told of it, playing at
    /// `duration` in the state `state`.
    pub open spec fn to_stream_info(self, duration: MediaSpan, state: PlayState) -> StreamInfoView {
        StreamInfoView { slug: self.slug, name: self.name, streams: self.streams, duration, state }
    }
}

impl View for MediaStream {
    type V = MediaStreamView;

    open spec fn view(&self) -> MediaStreamView {
        MediaStreamView {
            slug: self.slug@,
            name: self.name@,
            streams: views(self.streams@),
            meta: self.meta@,
        }
    }
}

impl Clone for MediaStream {
    fn clone(&self) -> (copy: Self)
        ensures
            copy@ == self@,
    {
        MediaStream {
            slug: self.slug.clone(),
            name: self.name.clone(),
            streams: clone_streams(&self.streams),
            meta: self.meta.clone(),
        }
    }
}

impl MediaStream {
    /// The stream as a joining participant is told of it, playing at
    /// `duration` in the state `state`.
    pub fn to_stream_info(&self, duration: MediaSpan, state: PlayState) -> (info: StreamInfo)
        ensures
            info@ == self@.to_stream_info(duration, state),
    {
        StreamInfo {
            slug: self.slug.clone(),
            name: self.name.clone(),
            streams: clone_streams(&self.streams),
            duration,
            state,
        }
    }
}

} // verus!
