//! The contents of the Matrix events that carry bridged messages.
use vstd::prelude::*;

use crate::text::opt_text;

verus! {

/// Where a bridged message comes from in the e-mail core.
#[derive(Debug, PartialEq, Eq)]
pub struct DeltaMessageFields<T = String> {
    pub external_url: Option<T>,
    pub msg_id: u32,
    pub chat_id: u32,
}

impl View for DeltaMessageFields<String> {
    type V = DeltaMessageFields<Seq<char>>;

    open spec fn view(&self) -> DeltaMessageFields<Seq<char>> {
        DeltaMessageFields {
            external_url: opt_text(self.external_url),
            msg_id: self.msg_id,
            chat_id: self.chat_id,
        }
    }
}

/// What the bridge reads of a message event.
#[derive(Debug, PartialEq, Eq)]
pub struct DeltaRoomEventContent {
    pub delta_fields: Option<DeltaMessageFields>,
}

/// What the bridge keeps in a room that stands for a chat.
#[derive(Debug, PartialEq, Eq)]
pub struct DeltaChatRoomEventContent {
    pub delta_fields: Option<DeltaMessageFields>,
}

/// What is known of a file.
#[derive(Debug, PartialEq, Eq)]
pub struct FileInfo<T = String> {
    pub mimetype: T,
    pub size: u64,
}

impl View for FileInfo<String> {
    type V = FileInfo<Seq<char>>;

    open spec fn view(&self) -> FileInfo<Seq<char>> {
        FileInfo { mimetype: self.mimetype@, size: self.size }
    }
}

/// What is known of an image.
#[derive(Debug, PartialEq, Eq)]
pub struct ImageInfo<T = String> {
    pub mimetype: T,
    pub width: u64,
    pub height: u64,
    pub size: u64,
}

impl View for ImageInfo<String> {
    type V = ImageInfo<Seq<char>>;

    open spec fn view(&self) -> ImageInfo<Seq<char>> {
        ImageInfo {
            mimetype: self.mimetype@,
            width: self.width,
            height: self.height,
            size: self.size,
        }
    }
}

/// What a message says.
#[derive(Debug, PartialEq, Eq)]
pub enum RoomMessage<T = String> {
    Text { body: T },
    File { body: T, url: T, file_info: Option<FileInfo<T>> },
    Image { body: T, url: T, image_info: Option<ImageInfo<T>> },
}

impl View for RoomMessage<String> {
    type V = RoomMessage<Seq<char>>;

    open spec fn view(&self) -> RoomMessage<Seq<char>> {
        match self {
            RoomMessage::Text { body } => RoomMessage::Text { body: body@ },
            RoomMessage::File { body, url, file_info } => RoomMessage::File {
                body: body@,
                url: url@,
                file_info: file_info_text(*file_info),
            },
            RoomMessage::Image { body, url, image_info } => RoomMessage::Image {
                body: body@,
                url: url@,
                image_info: image_info_text(*image_info),
            },
        }
    }
}

pub open spec fn file_info_text(info: Option<FileInfo>) -> Option<FileInfo<Seq<char>>> {
    match info {
        Some(i) => Some(i@),
        None => None,
    }
}

pub open spec fn image_info_text(info: Option<ImageInfo>) -> Option<ImageInfo<Seq<char>>> {
    match info {
        Some(i) => Some(i@),
        None => None,
    }
}

/// The content of a message event that the bridge sends.
#[derive(Debug, PartialEq, Eq)]
pub struct DeltaRoomMessageEventContent<T = String> {
    pub delta_fields: Option<DeltaMessageFields<T>>,
    pub msg: RoomMessage<T>,
}

impl View for DeltaRoomMessageEventContent<String> {
    type V = DeltaRoomMessageEventContent<Seq<char>>;

    open spec fn view(&self) -> DeltaRoomMessageEventContent<Seq<char>> {
        DeltaRoomMessageEventContent {
            delta_fields: match self.delta_fields {
                Some(f) => Some(f@),
                None => None,
            },
            msg: self.msg@,
        }
    }
}

/// A message event, as far as the bridge reads it.
#[derive(Debug, PartialEq, Eq)]
pub struct DeltaMessageEvent {
    pub sender: String,
    pub content: DeltaRoomEventContent,
}

}
