//! # Authentication & Transfer Authorization
//!
//! Incoming transfers need the user's explicit approval. Devices the user
//! trusts can be remembered, and transfers from them can be accepted
//! automatically when auto-accept is switched on.

use vstd::prelude::*;

use crate::external::ids::{is_uuid_text, new_uuid_v4_string};
use crate::text::{
    ascii_lowercase, contains_char, eq_lit, is_ascii_text, is_last_segment, last_segment, lowercase_of,
    to_lowercase,
};

verus! {

/// An incoming transfer request that needs user approval.
#[derive(Debug, Clone)]
pub struct TransferRequest {
    /// Unique request identifier.
    pub request_id: String,
    /// Sender's device name.
    pub sender_name: String,
    /// Sender's device ID.
    pub sender_device_id: String,
    /// File name being sent.
    pub file_name: String,
    /// File size in bytes.
    pub file_size: u64,
    /// File type class (image, video, audio, document, archive,
    /// application or file).
    pub file_type: String,
    /// Whether the sender is a paired/trusted device.
    pub is_trusted: bool,
}

/// The user's response to a transfer request.
#[derive(Debug, Clone, Copy, PartialEq, Eq, Structural)]
pub enum TransferResponse {
    /// The user accepted the transfer.
    Accept,
    /// The user rejected the transfer.
    Reject,
    /// The request timed out.
    Timeout,
}

/// The file type class of a (lowercased) file extension.
pub open spec fn file_type_of_extension(ext: Seq<char>) -> Seq<char> {
    if ext == "jpg"@ || ext == "jpeg"@ || ext == "png"@ || ext == "gif"@ || ext == "webp"@ || ext
        == "bmp"@ {
        "image"@
    } else if ext == "mp4"@ || ext == "mkv"@ || ext == "avi"@ || ext == "mov"@ || ext == "webm"@ {
        "video"@
    } else if ext == "mp3"@ || ext == "wav"@ || ext == "flac"@ || ext == "aac"@ || ext == "ogg"@ {
        "audio"@
    } else if ext == "pdf"@ || ext == "doc"@ || ext == "docx"@ || ext == "txt"@ || ext == "rtf"@ {
        "document"@
    } else if ext == "zip"@ || ext == "tar"@ || ext == "gz"@ || ext == "7z"@ || ext == "rar"@ {
        "archive"@
    } else if ext == "exe"@ || ext == "msi"@ || ext == "dmg"@ || ext == "deb"@ || ext == "rpm"@ {
        "application"@
    } else {
        "file"@
    }
}

/// `t` is the type class guessed for the file name `name` when `lower`
/// lowercases text: the class of its lowercased extension (the text after
/// its last `'.'`), or a plain file when the name has no `'.'`.
pub open spec fn guessed_type_by(name: Seq<char>, t: Seq<char>, lower: spec_fn(Seq<char>) -> Seq<char>) -> bool {
    if name.contains('.') {
        exists|ext: Seq<char>| is_last_segment(name, ext) && t == file_type_of_extension(lower(ext))
    } else {
        t == "file"@
    }
}

/// `t` is the type class guessed for the file name `name`, lowercasing as
/// `str::to_lowercase` does.
pub open spec fn is_guessed_type(name: Seq<char>, t: Seq<char>) -> bool {
    guessed_type_by(name, t, |e: Seq<char>| lowercase_of(e))
}

/// `t` is the type class guessed for the ASCII file name `name`.
pub open spec fn is_guessed_type_ascii(name: Seq<char>, t: Seq<char>) -> bool {
    guessed_type_by(name, t, |e: Seq<char>| ascii_lowercase(e))
}

/// The image extensions of the table.
pub proof fn lemma_image_extensions()
    ensures
        file_type_of_extension("jpg"@) == "image"@,
        file_type_of_extension("jpeg"@) == "image"@,
        file_type_of_extension("png"@) == "image"@,
        file_type_of_extension("gif"@) == "image"@,
        file_type_of_extension("webp"@) == "image"@,
        file_type_of_extension("bmp"@) == "image"@,
{
    reveal_strlit("bmp");
    reveal_strlit("gif");
    reveal_strlit("jpeg");
    reveal_strlit("jpg");
    reveal_strlit("png");
    reveal_strlit("webp");
}

/// The video extensions of the table.
pub proof fn lemma_video_extensions()
    ensures
        file_type_of_extension("mp4"@) == "video"@,
        file_type_of_extension("mkv"@) == "video"@,
        file_type_of_extension("avi"@) == "video"@,
        file_type_of_extension("mov"@) == "video"@,
        file_type_of_extension("webm"@) == "video"@,
{
    reveal_strlit("avi");
    reveal_strlit("bmp");
    reveal_strlit("gif");
    reveal_strlit("jpeg");
    reveal_strlit("jpg");
    reveal_strlit("mkv");
    reveal_strlit("mov");
    reveal_strlit("mp4");
    reveal_strlit("png");
    reveal_strlit("webm");
    reveal_strlit("webp");
    assert("mp4"@ != "jpg"@) by { assert("mp4"@[0] != "jpg"@[0]); }
    assert("mp4"@ != "jpeg"@) by { assert("mp4"@.len() != "jpeg"@.len()); }
    assert("mp4"@ != "png"@) by { assert("mp4"@[0] != "png"@[0]); }
    assert("mp4"@ != "gif"@) by { assert("mp4"@[0] != "gif"@[0]); }
    assert("mp4"@ != "webp"@) by { assert("mp4"@.len() != "webp"@.len()); }
    assert("mp4"@ != "bmp"@) by { assert("mp4"@[0] != "bmp"@[0]); }
    assert("mkv"@ != "jpg"@) by { assert("mkv"@[0] != "jpg"@[0]); }
    assert("mkv"@ != "jpeg"@) by { assert("mkv"@.len() != "jpeg"@.len()); }
    assert("mkv"@ != "png"@) by { assert("mkv"@[0] != "png"@[0]); }
    assert("mkv"@ != "gif"@) by { assert("mkv"@[0] != "gif"@[0]); }
    assert("mkv"@ != "webp"@) by { assert("mkv"@.len() != "webp"@.len()); }
    assert("mkv"@ != "bmp"@) by { assert("mkv"@[0] != "bmp"@[0]); }
    assert("avi"@ != "jpg"@) by { assert("avi"@[0] != "jpg"@[0]); }
    assert("avi"@ != "jpeg"@) by { assert("avi"@.len() != "jpeg"@.len()); }
    assert("avi"@ != "png"@) by { assert("avi"@[0] != "png"@[0]); }
    assert("avi"@ != "gif"@) by { assert("avi"@[0] != "gif"@[0]); }
    assert("avi"@ != "webp"@) by { assert("avi"@.len() != "webp"@.len()); }
    assert("avi"@ != "bmp"@) by { assert("avi"@[0] != "bmp"@[0]); }
    assert("mov"@ != "jpg"@) by { assert("mov"@[0] != "jpg"@[0]); }
    assert("mov"@ != "jpeg"@) by { assert("mov"@.len() != "jpeg"@.len()); }
    assert("mov"@ != "png"@) by { assert("mov"@[0] != "png"@[0]); }
    assert("mov"@ != "gif"@) by { assert("mov"@[0] != "gif"@[0]); }
    assert("mov"@ != "webp"@) by { assert("mov"@.len() != "webp"@.len()); }
    assert("mov"@ != "bmp"@) by { assert("mov"@[0] != "bmp"@[0]); }
    assert("webm"@ != "jpg"@) by { assert("webm"@.len() != "jpg"@.len()); }
    assert("webm"@ != "jpeg"@) by { assert("webm"@[0] != "jpeg"@[0]); }
    assert("webm"@ != "png"@) by { assert("webm"@.len() != "png"@.len()); }
    assert("webm"@ != "gif"@) by { assert("webm"@.len() != "gif"@.len()); }
    assert("webm"@ != "webp"@) by { assert("webm"@[3] != "webp"@[3]); }
    assert("webm"@ != "bmp"@) by { assert("webm"@.len() != "bmp"@.len()); }
}

/// The audio extensions of the table.
pub proof fn lemma_audio_extensions()
    ensures
        file_type_of_extension("mp3"@) == "audio"@,
        file_type_of_extension("wav"@) == "audio"@,
        file_type_of_extension("flac"@) == "audio"@,
        file_type_of_extension("aac"@) == "audio"@,
        file_type_of_extension("ogg"@) == "audio"@,
{
    reveal_strlit("aac");
    reveal_strlit("avi");
    reveal_strlit("bmp");
    reveal_strlit("flac");
    reveal_strlit("gif");
    reveal_strlit("jpeg");
    reveal_strlit("jpg");
    reveal_strlit("mkv");
    reveal_strlit("mov");
    reveal_strlit("mp3");
    reveal_strlit("mp4");
    reveal_strlit("ogg");
    reveal_strlit("png");
    reveal_strlit("wav");
    reveal_strlit("webm");
    reveal_strlit("webp");
    assert("mp3"@ != "jpg"@) by { assert("mp3"@[0] != "jpg"@[0]); }
    assert("mp3"@ != "jpeg"@) by { assert("mp3"@.len() != "jpeg"@.len()); }
    assert("mp3"@ != "png"@) by { assert("mp3"@[0] != "png"@[0]); }
    assert("mp3"@ != "gif"@) by { assert("mp3"@[0] != "gif"@[0]); }
    assert("mp3"@ != "webp"@) by { assert("mp3"@.len() != "webp"@.len()); }
    assert("mp3"@ != "bmp"@) by { assert("mp3"@[0] != "bmp"@[0]); }
    assert("mp3"@ != "mp4"@) by { assert("mp3"@[2] != "mp4"@[2]); }
    assert("mp3"@ != "mkv"@) by { assert("mp3"@[1] != "mkv"@[1]); }
    assert("mp3"@ != "avi"@) by { assert("mp3"@[0] != "avi"@[0]); }
    assert("mp3"@ != "mov"@) by { assert("mp3"@[1] != "mov"@[1]); }
    assert("mp3"@ != "webm"@) by { assert("mp3"@.len() != "webm"@.len()); }
    assert("wav"@ != "jpg"@) by { assert("wav"@[0] != "jpg"@[0]); }
    assert("wav"@ != "jpeg"@) by { assert("wav"@.len() != "jpeg"@.len()); }
    assert("wav"@ != "png"@) by { assert("wav"@[0] != "png"@[0]); }
    assert("wav"@ != "gif"@) by { assert("wav"@[0] != "gif"@[0]); }
    assert("wav"@ != "webp"@) by { assert("wav"@.len() != "webp"@.len()); }
    assert("wav"@ != "bmp"@) by { assert("wav"@[0] != "bmp"@[0]); }
    assert("wav"@ != "mp4"@) by { assert("wav"@[0] != "mp4"@[0]); }
    assert("wav"@ != "mkv"@) by { assert("wav"@[0] != "mkv"@[0]); }
    assert("wav"@ != "avi"@) by { assert("wav"@[0] != "avi"@[0]); }
    assert("wav"@ != "mov"@) by { assert("wav"@[0] != "mov"@[0]); }
    assert("wav"@ != "webm"@) by { assert("wav"@.len() != "webm"@.len()); }
    assert("flac"@ != "jpg"@) by { assert("flac"@.len() != "jpg"@.len()); }
    assert("flac"@ != "jpeg"@) by { assert("flac"@[0] != "jpeg"@[0]); }
    assert("flac"@ != "png"@) by { assert("flac"@.len() != "png"@.len()); }
    assert("flac"@ != "gif"@) by { assert("flac"@.len() != "gif"@.len()); }
    assert("flac"@ != "webp"@) by { assert("flac"@[0] != "webp"@[0]); }
    assert("flac"@ != "bmp"@) by { assert("flac"@.len() != "bmp"@.len()); }
    assert("flac"@ != "mp4"@) by { assert("flac"@.len() != "mp4"@.len()); }
    assert("flac"@ != "mkv"@) by { assert("flac"@.len() != "mkv"@.len()); }
    assert("flac"@ != "avi"@) by { assert("flac"@.len() != "avi"@.len()); }
    assert("flac"@ != "mov"@) by { assert("flac"@.len() != "mov"@.len()); }
    assert("flac"@ != "webm"@) by { assert("flac"@[0] != "webm"@[0]); }
    assert("aac"@ != "jpg"@) by { assert("aac"@[0] != "jpg"@[0]); }
    assert("aac"@ != "jpeg"@) by { assert("aac"@.len() != "jpeg"@.len()); }
    assert("aac"@ != "png"@) by { assert("aac"@[0] != "png"@[0]); }
    assert("aac"@ != "gif"@) by { assert("aac"@[0] != "gif"@[0]); }
    assert("aac"@ != "webp"@) by { assert("aac"@.len() != "webp"@.len()); }
    assert("aac"@ != "bmp"@) by { assert("aac"@[0] != "bmp"@[0]); }
    assert("aac"@ != "mp4"@) by { assert("aac"@[0] != "mp4"@[0]); }
    assert("aac"@ != "mkv"@) by { assert("aac"@[0] != "mkv"@[0]); }
    assert("aac"@ != "avi"@) by { assert("aac"@[1] != "avi"@[1]); }
    assert("aac"@ != "mov"@) by { assert("aac"@[0] != "mov"@[0]); }
    assert("aac"@ != "webm"@) by { assert("aac"@.len() != "webm"@.len()); }
    assert("ogg"@ != "jpg"@) by { assert("ogg"@[0] != "jpg"@[0]); }
    assert("ogg"@ != "jpeg"@) by { assert("ogg"@.len() != "jpeg"@.len()); }
    assert("ogg"@ != "png"@) by { assert("ogg"@[0] != "png"@[0]); }
    assert("ogg"@ != "gif"@) by { assert("ogg"@[0] != "gif"@[0]); }
    assert("ogg"@ != "webp"@) by { assert("ogg"@.len() != "webp"@.len()); }
    assert("ogg"@ != "bmp"@) by { assert("ogg"@[0] != "bmp"@[0]); }
    assert("ogg"@ != "mp4"@) by { assert("ogg"@[0] != "mp4"@[0]); }
    assert("ogg"@ != "mkv"@) by { assert("ogg"@[0] != "mkv"@[0]); }
    assert("ogg"@ != "avi"@) by { assert("ogg"@[0] != "avi"@[0]); }
    assert("ogg"@ != "mov"@) by { assert("ogg"@[0] != "mov"@[0]); }
    assert("ogg"@ != "webm"@) by { assert("ogg"@.len() != "webm"@.len()); }
}

/// The document extensions of the table.
pub proof fn lemma_document_extensions()
    ensures
        file_type_of_extension("pdf"@) == "document"@,
        file_type_of_extension("doc"@) == "document"@,
        file_type_of_extension("docx"@) == "document"@,
        file_type_of_extension("txt"@) == "document"@,
        file_type_of_extension("rtf"@) == "document"@,
{
    reveal_strlit("aac");
    reveal_strlit("avi");
    reveal_strlit("bmp");
    reveal_strlit("doc");
    reveal_strlit("docx");
    reveal_strlit("flac");
    reveal_strlit("gif");
    reveal_strlit("jpeg");
    reveal_strlit("jpg");
    reveal_strlit("mkv");
    reveal_strlit("mov");
    reveal_strlit("mp3");
    reveal_strlit("mp4");
    reveal_strlit("ogg");
    reveal_strlit("pdf");
    reveal_strlit("png");
    reveal_strlit("rtf");
    reveal_strlit("txt");
    reveal_strlit("wav");
    reveal_strlit("webm");
    reveal_strlit("webp");
    assert("pdf"@ != "jpg"@) by { assert("pdf"@[0] != "jpg"@[0]); }
    assert("pdf"@ != "jpeg"@) by { assert("pdf"@.len() != "jpeg"@.len()); }
    assert("pdf"@ != "png"@) by { assert("pdf"@[1] != "png"@[1]); }
    assert("pdf"@ != "gif"@) by { assert("pdf"@[0] != "gif"@[0]); }
    assert("pdf"@ != "webp"@) by { assert("pdf"@.len() != "webp"@.len()); }
    assert("pdf"@ != "bmp"@) by { assert("pdf"@[0] != "bmp"@[0]); }
    assert("pdf"@ != "mp4"@) by { assert("pdf"@[0] != "mp4"@[0]); }
    assert("pdf"@ != "mkv"@) by { assert("pdf"@[0] != "mkv"@[0]); }
    assert("pdf"@ != "avi"@) by { assert("pdf"@[0] != "avi"@[0]); }
    assert("pdf"@ != "mov"@) by { assert("pdf"@[0] != "mov"@[0]); }
    assert("pdf"@ != "webm"@) by { assert("pdf"@.len() != "webm"@.len()); }
    assert("pdf"@ != "mp3"@) by { assert("pdf"@[0] != "mp3"@[0]); }
    assert("pdf"@ != "wav"@) by { assert("pdf"@[0] != "wav"@[0]); }
    assert("pdf"@ != "flac"@) by { assert("pdf"@.len() != "flac"@.len()); }
    assert("pdf"@ != "aac"@) by { assert("pdf"@[0] != "aac"@[0]); }
    assert("pdf"@ != "ogg"@) by { assert("pdf"@[0] != "ogg"@[0]); }
    assert("doc"@ != "jpg"@) by { assert("doc"@[0] != "jpg"@[0]); }
    assert("doc"@ != "jpeg"@) by { assert("doc"@.len() != "jpeg"@.len()); }
    assert("doc"@ != "png"@) by { assert("doc"@[0] != "png"@[0]); }
    assert("doc"@ != "gif"@) by { assert("doc"@[0] != "gif"@[0]); }
    assert("doc"@ != "webp"@) by { assert("doc"@.len() != "webp"@.len()); }
    assert("doc"@ != "bmp"@) by { assert("doc"@[0] != "bmp"@[0]); }
    assert("doc"@ != "mp4"@) by { assert("doc"@[0] != "mp4"@[0]); }
    assert("doc"@ != "mkv"@) by { assert("doc"@[0] != "mkv"@[0]); }
    assert("doc"@ != "avi"@) by { assert("doc"@[0] != "avi"@[0]); }
    assert("doc"@ != "mov"@) by { assert("doc"@[0] != "mov"@[0]); }
    assert("doc"@ != "webm"@) by { assert("doc"@.len() != "webm"@.len()); }
    assert("doc"@ != "mp3"@) by { assert("doc"@[0] != "mp3"@[0]); }
    assert("doc"@ != "wav"@) by { assert("doc"@[0] != "wav"@[0]); }
    assert("doc"@ != "flac"@) by { assert("doc"@.len() != "flac"@.len()); }
    assert("doc"@ != "aac"@) by { assert("doc"@[0] != "aac"@[0]); }
    assert("doc"@ != "ogg"@) by { assert("doc"@[0] != "ogg"@[0]); }
    assert("docx"@ != "jpg"@) by { assert("docx"@.len() != "jpg"@.len()); }
    assert("docx"@ != "jpeg"@) by { assert("docx"@[0] != "jpeg"@[0]); }
    assert("docx"@ != "png"@) by { assert("docx"@.len() != "png"@.len()); }
    assert("docx"@ != "gif"@) by { assert("docx"@.len() != "gif"@.len()); }
    assert("docx"@ != "webp"@) by { assert("docx"@[0] != "webp"@[0]); }
    assert("docx"@ != "bmp"@) by { assert("docx"@.len() != "bmp"@.len()); }
    assert("docx"@ != "mp4"@) by { assert("docx"@.len() != "mp4"@.len()); }
    assert("docx"@ != "mkv"@) by { assert("docx"@.len() != "mkv"@.len()); }
    assert("docx"@ != "avi"@) by { assert("docx"@.len() != "avi"@.len()); }
    assert("docx"@ != "mov"@) by { assert("docx"@.len() != "mov"@.len()); }
    assert("docx"@ != "webm"@) by { assert("docx"@[0] != "webm"@[0]); }
    assert("docx"@ != "mp3"@) by { assert("docx"@.len() != "mp3"@.len()); }
    assert("docx"@ != "wav"@) by { assert("docx"@.len() != "wav"@.len()); }
    assert("docx"@ != "flac"@) by { assert("docx"@[0] != "flac"@[0]); }
    assert("docx"@ != "aac"@) by { assert("docx"@.len() != "aac"@.len()); }
    assert("docx"@ != "ogg"@) by { assert("docx"@.len() != "ogg"@.len()); }
    assert("txt"@ != "jpg"@) by { assert("txt"@[0] != "jpg"@[0]); }
    assert("txt"@ != "jpeg"@) by { assert("txt"@.len() != "jpeg"@.len()); }
    assert("txt"@ != "png"@) by { assert("txt"@[0] != "png"@[0]); }
    assert("txt"@ != "gif"@) by { assert("txt"@[0] != "gif"@[0]); }
    assert("txt"@ != "webp"@) by { assert("txt"@.len() != "webp"@.len()); }
    assert("txt"@ != "bmp"@) by { assert("txt"@[0] != "bmp"@[0]); }
    assert("txt"@ != "mp4"@) by { assert("txt"@[0] != "mp4"@[0]); }
    assert("txt"@ != "mkv"@) by { assert("txt"@[0] != "mkv"@[0]); }
    assert("txt"@ != "avi"@) by { assert("txt"@[0] != "avi"@[0]); }
    assert("txt"@ != "mov"@) by { assert("txt"@[0] != "mov"@[0]); }
    assert("txt"@ != "webm"@) by { assert("txt"@.len() != "webm"@.len()); }
    assert("txt"@ != "mp3"@) by { assert("txt"@[0] != "mp3"@[0]); }
    assert("txt"@ != "wav"@) by { assert("txt"@[0] != "wav"@[0]); }
    assert("txt"@ != "flac"@) by { assert("txt"@.len() != "flac"@.len()); }
    assert("txt"@ != "aac"@) by { assert("txt"@[0] != "aac"@[0]); }
    assert("txt"@ != "ogg"@) by { assert("txt"@[0] != "ogg"@[0]); }
    assert("rtf"@ != "jpg"@) by { assert("rtf"@[0] != "jpg"@[0]); }
    assert("rtf"@ != "jpeg"@) by { assert("rtf"@.len() != "jpeg"@.len()); }
    assert("rtf"@ != "png"@) by { assert("rtf"@[0] != "png"@[0]); }
    assert("rtf"@ != "gif"@) by { assert("rtf"@[0] != "gif"@[0]); }
    assert("rtf"@ != "webp"@) by { assert("rtf"@.len() != "webp"@.len()); }
    assert("rtf"@ != "bmp"@) by { assert("rtf"@[0] != "bmp"@[0]); }
    assert("rtf"@ != "mp4"@) by { assert("rtf"@[0] != "mp4"@[0]); }
    assert("rtf"@ != "mkv"@) by { assert("rtf"@[0] != "mkv"@[0]); }
    assert("rtf"@ != "avi"@) by { assert("rtf"@[0] != "avi"@[0]); }
    assert("rtf"@ != "mov"@) by { assert("rtf"@[0] != "mov"@[0]); }
    assert("rtf"@ != "webm"@) by { assert("rtf"@.len() != "webm"@.len()); }
    assert("rtf"@ != "mp3"@) by { assert("rtf"@[0] != "mp3"@[0]); }
    assert("rtf"@ != "wav"@) by { assert("rtf"@[0] != "wav"@[0]); }
    assert("rtf"@ != "flac"@) by { assert("rtf"@.len() != "flac"@.len()); }
    assert("rtf"@ != "aac"@) by { assert("rtf"@[0] != "aac"@[0]); }
    assert("rtf"@ != "ogg"@) by { assert("rtf"@[0] != "ogg"@[0]); }
}

/// The archive extensions of the table.
pub proof fn lemma_archive_extensions()
    ensures
        file_type_of_extension("zip"@) == "archive"@,
        file_type_of_extension("tar"@) == "archive"@,
        file_type_of_extension("gz"@) == "archive"@,
        file_type_of_extension("7z"@) == "archive"@,
        file_type_of_extension("rar"@) == "archive"@,
{
    reveal_strlit("7z");
    reveal_strlit("aac");
    reveal_strlit("avi");
    reveal_strlit("bmp");
    reveal_strlit("doc");
    reveal_strlit("docx");
    reveal_strlit("flac");
    reveal_strlit("gif");
    reveal_strlit("gz");
    reveal_strlit("jpeg");
    reveal_strlit("jpg");
    reveal_strlit("mkv");
    reveal_strlit("mov");
    reveal_strlit("mp3");
    reveal_strlit("mp4");
    reveal_strlit("ogg");
    reveal_strlit("pdf");
    reveal_strlit("png");
    reveal_strlit("rar");
    reveal_strlit("rtf");
    reveal_strlit("tar");
    reveal_strlit("txt");
    reveal_strlit("wav");
    reveal_strlit("webm");
    reveal_strlit("webp");
    reveal_strlit("zip");
    assert("zip"@ != "jpg"@) by { assert("zip"@[0] != "jpg"@[0]); }
    assert("zip"@ != "jpeg"@) by { assert("zip"@.len() != "jpeg"@.len()); }
    assert("zip"@ != "png"@) by { assert("zip"@[0] != "png"@[0]); }
    assert("zip"@ != "gif"@) by { assert("zip"@[0] != "gif"@[0]); }
    assert("zip"@ != "webp"@) by { assert("zip"@.len() != "webp"@.len()); }
    assert("zip"@ != "bmp"@) by { assert("zip"@[0] != "bmp"@[0]); }
    assert("zip"@ != "mp4"@) by { assert("zip"@[0] != "mp4"@[0]); }
    assert("zip"@ != "mkv"@) by { assert("zip"@[0] != "mkv"@[0]); }
    assert("zip"@ != "avi"@) by { assert("zip"@[0] != "avi"@[0]); }
    assert("zip"@ != "mov"@) by { assert("zip"@[0] != "mov"@[0]); }
    assert("zip"@ != "webm"@) by { assert("zip"@.len() != "webm"@.len()); }
    assert("zip"@ != "mp3"@) by { assert("zip"@[0] != "mp3"@[0]); }
    assert("zip"@ != "wav"@) by { assert("zip"@[0] != "wav"@[0]); }
    assert("zip"@ != "flac"@) by { assert("zip"@.len() != "flac"@.len()); }
    assert("zip"@ != "aac"@) by { assert("zip"@[0] != "aac"@[0]); }
    assert("zip"@ != "ogg"@) by { assert("zip"@[0] != "ogg"@[0]); }
    assert("zip"@ != "pdf"@) by { assert("zip"@[0] != "pdf"@[0]); }
    assert("zip"@ != "doc"@) by { assert("zip"@[0] != "doc"@[0]); }
    assert("zip"@ != "docx"@) by { assert("zip"@.len() != "docx"@.len()); }
    assert("zip"@ != "txt"@) by { assert("zip"@[0] != "txt"@[0]); }
    assert("zip"@ != "rtf"@) by { assert("zip"@[0] != "rtf"@[0]); }
    assert("tar"@ != "jpg"@) by { assert("tar"@[0] != "jpg"@[0]); }
    assert("tar"@ != "jpeg"@) by { assert("tar"@.len() != "jpeg"@.len()); }
    assert("tar"@ != "png"@) by { assert("tar"@[0] != "png"@[0]); }
    assert("tar"@ != "gif"@) by { assert("tar"@[0] != "gif"@[0]); }
    assert("tar"@ != "webp"@) by { assert("tar"@.len() != "webp"@.len()); }
    assert("tar"@ != "bmp"@) by { assert("tar"@[0] != "bmp"@[0]); }
    assert("tar"@ != "mp4"@) by { assert("tar"@[0] != "mp4"@[0]); }
    assert("tar"@ != "mkv"@) by { assert("tar"@[0] != "mkv"@[0]); }
    assert("tar"@ != "avi"@) by { assert("tar"@[0] != "avi"@[0]); }
    assert("tar"@ != "mov"@) by { assert("tar"@[0] != "mov"@[0]); }
    assert("tar"@ != "webm"@) by { assert("tar"@.len() != "webm"@.len()); }
    assert("tar"@ != "mp3"@) by { assert("tar"@[0] != "mp3"@[0]); }
    assert("tar"@ != "wav"@) by { assert("tar"@[0] != "wav"@[0]); }
    assert("tar"@ != "flac"@) by { assert("tar"@.len() != "flac"@.len()); }
    assert("tar"@ != "aac"@) by { assert("tar"@[0] != "aac"@[0]); }
    assert("tar"@ != "ogg"@) by { assert("tar"@[0] != "ogg"@[0]); }
    assert("tar"@ != "pdf"@) by { assert("tar"@[0] != "pdf"@[0]); }
    assert("tar"@ != "doc"@) by { assert("tar"@[0] != "doc"@[0]); }
    assert("tar"@ != "docx"@) by { assert("tar"@.len() != "docx"@.len()); }
    assert("tar"@ != "txt"@) by { assert("tar"@[1] != "txt"@[1]); }
    assert("tar"@ != "rtf"@) by { assert("tar"@[0] != "rtf"@[0]); }
    assert("gz"@ != "jpg"@) by { assert("gz"@.len() != "jpg"@.len()); }
    assert("gz"@ != "jpeg"@) by { assert("gz"@.len() != "jpeg"@.len()); }
    assert("gz"@ != "png"@) by { assert("gz"@.len() != "png"@.len()); }
    assert("gz"@ != "gif"@) by { assert("gz"@.len() != "gif"@.len()); }
    assert("gz"@ != "webp"@) by { assert("gz"@.len() != "webp"@.len()); }
    assert("gz"@ != "bmp"@) by { assert("gz"@.len() != "bmp"@.len()); }
    assert("gz"@ != "mp4"@) by { assert("gz"@.len() != "mp4"@.len()); }
    assert("gz"@ != "mkv"@) by { assert("gz"@.len() != "mkv"@.len()); }
    assert("gz"@ != "avi"@) by { assert("gz"@.len() != "avi"@.len()); }
    assert("gz"@ != "mov"@) by { assert("gz"@.len() != "mov"@.len()); }
    assert("gz"@ != "webm"@) by { assert("gz"@.len() != "webm"@.len()); }
    assert("gz"@ != "mp3"@) by { assert("gz"@.len() != "mp3"@.len()); }
    assert("gz"@ != "wav"@) by { assert("gz"@.len() != "wav"@.len()); }
    assert("gz"@ != "flac"@) by { assert("gz"@.len() != "flac"@.len()); }
    assert("gz"@ != "aac"@) by { assert("gz"@.len() != "aac"@.len()); }
    assert("gz"@ != "ogg"@) by { assert("gz"@.len() != "ogg"@.len()); }
    assert("gz"@ != "pdf"@) by { assert("gz"@.len() != "pdf"@.len()); }
    assert("gz"@ != "doc"@) by { assert("gz"@.len() != "doc"@.len()); }
    assert("gz"@ != "docx"@) by { assert("gz"@.len() != "docx"@.len()); }
    assert("gz"@ != "txt"@) by { assert("gz"@.len() != "txt"@.len()); }
    assert("gz"@ != "rtf"@) by { assert("gz"@.len() != "rtf"@.len()); }
    assert("7z"@ != "jpg"@) by { assert("7z"@.len() != "jpg"@.len()); }
    assert("7z"@ != "jpeg"@) by { assert("7z"@.len() != "jpeg"@.len()); }
    assert("7z"@ != "png"@) by { assert("7z"@.len() != "png"@.len()); }
    assert("7z"@ != "gif"@) by { assert("7z"@.len() != "gif"@.len()); }
    assert("7z"@ != "webp"@) by { assert("7z"@.len() != "webp"@.len()); }
    assert("7z"@ != "bmp"@) by { assert("7z"@.len() != "bmp"@.len()); }
    assert("7z"@ != "mp4"@) by { assert("7z"@.len() != "mp4"@.len()); }
    assert("7z"@ != "mkv"@) by { assert("7z"@.len() != "mkv"@.len()); }
    assert("7z"@ != "avi"@) by { assert("7z"@.len() != "avi"@.len()); }
    assert("7z"@ != "mov"@) by { assert("7z"@.len() != "mov"@.len()); }
    assert("7z"@ != "webm"@) by { assert("7z"@.len() != "webm"@.len()); }
    assert("7z"@ != "mp3"@) by { assert("7z"@.len() != "mp3"@.len()); }
    assert("7z"@ != "wav"@) by { assert("7z"@.len() != "wav"@.len()); }
    assert("7z"@ != "flac"@) by { assert("7z"@.len() != "flac"@.len()); }
    assert("7z"@ != "aac"@) by { assert("7z"@.len() != "aac"@.len()); }
    assert("7z"@ != "ogg"@) by { assert("7z"@.len() != "ogg"@.len()); }
    assert("7z"@ != "pdf"@) by { assert("7z"@.len() != "pdf"@.len()); }
    assert("7z"@ != "doc"@) by { assert("7z"@.len() != "doc"@.len()); }
    assert("7z"@ != "docx"@) by { assert("7z"@.len() != "docx"@.len()); }
    assert("7z"@ != "txt"@) by { assert("7z"@.len() != "txt"@.len()); }
    assert("7z"@ != "rtf"@) by { assert("7z"@.len() != "rtf"@.len()); }
    assert("rar"@ != "jpg"@) by { assert("rar"@[0] != "jpg"@[0]); }
    assert("rar"@ != "jpeg"@) by { assert("rar"@.len() != "jpeg"@.len()); }
    assert("rar"@ != "png"@) by { assert("rar"@[0] != "png"@[0]); }
    assert("rar"@ != "gif"@) by { assert("rar"@[0] != "gif"@[0]); }
    assert("rar"@ != "webp"@) by { assert("rar"@.len() != "webp"@.len()); }
    assert("rar"@ != "bmp"@) by { assert("rar"@[0] != "bmp"@[0]); }
    assert("rar"@ != "mp4"@) by { assert("rar"@[0] != "mp4"@[0]); }
    assert("rar"@ != "mkv"@) by { assert("rar"@[0] != "mkv"@[0]); }
    assert("rar"@ != "avi"@) by { assert("rar"@[0] != "avi"@[0]); }
    assert("rar"@ != "mov"@) by { assert("rar"@[0] != "mov"@[0]); }
    assert("rar"@ != "webm"@) by { assert("rar"@.len() != "webm"@.len()); }
    assert("rar"@ != "mp3"@) by { assert("rar"@[0] != "mp3"@[0]); }
    assert("rar"@ != "wav"@) by { assert("rar"@[0] != "wav"@[0]); }
    assert("rar"@ != "flac"@) by { assert("rar"@.len() != "flac"@.len()); }
    assert("rar"@ != "aac"@) by { assert("rar"@[0] != "aac"@[0]); }
    assert("rar"@ != "ogg"@) by { assert("rar"@[0] != "ogg"@[0]); }
    assert("rar"@ != "pdf"@) by { assert("rar"@[0] != "pdf"@[0]); }
    assert("rar"@ != "doc"@) by { assert("rar"@[0] != "doc"@[0]); }
    assert("rar"@ != "docx"@) by { assert("rar"@.len() != "docx"@.len()); }
    assert("rar"@ != "txt"@) by { assert("rar"@[0] != "txt"@[0]); }
    assert("rar"@ != "rtf"@) by { assert("rar"@[1] != "rtf"@[1]); }
}

/// The application extensions of the table.
pub proof fn lemma_application_extensions()
    ensures
        file_type_of_extension("exe"@) == "application"@,
        file_type_of_extension("msi"@) == "application"@,
        file_type_of_extension("dmg"@) == "application"@,
        file_type_of_extension("deb"@) == "application"@,
        file_type_of_extension("rpm"@) == "application"@,
{
    reveal_strlit("7z");
    reveal_strlit("aac");
    reveal_strlit("avi");
    reveal_strlit("bmp");
    reveal_strlit("deb");
    reveal_strlit("dmg");
    reveal_strlit("doc");
    reveal_strlit("docx");
    reveal_strlit("exe");
    reveal_strlit("flac");
    reveal_strlit("gif");
    reveal_strlit("gz");
    reveal_strlit("jpeg");
    reveal_strlit("jpg");
    reveal_strlit("mkv");
    reveal_strlit("mov");
    reveal_strlit("mp3");
    reveal_strlit("mp4");
    reveal_strlit("msi");
    reveal_strlit("ogg");
    reveal_strlit("pdf");
    reveal_strlit("png");
    reveal_strlit("rar");
    reveal_strlit("rpm");
    reveal_strlit("rtf");
    reveal_strlit("tar");
    reveal_strlit("txt");
    reveal_strlit("wav");
    reveal_strlit("webm");
    reveal_strlit("webp");
    reveal_strlit("zip");
    assert("exe"@ != "jpg"@) by { assert("exe"@[0] != "jpg"@[0]); }
    assert("exe"@ != "jpeg"@) by { assert("exe"@.len() != "jpeg"@.len()); }
    assert("exe"@ != "png"@) by { assert("exe"@[0] != "png"@[0]); }
    assert("exe"@ != "gif"@) by { assert("exe"@[0] != "gif"@[0]); }
    assert("exe"@ != "webp"@) by { assert("exe"@.len() != "webp"@.len()); }
    assert("exe"@ != "bmp"@) by { assert("exe"@[0] != "bmp"@[0]); }
    assert("exe"@ != "mp4"@) by { assert("exe"@[0] != "mp4"@[0]); }
    assert("exe"@ != "mkv"@) by { assert("exe"@[0] != "mkv"@[0]); }
    assert("exe"@ != "avi"@) by { assert("exe"@[0] != "avi"@[0]); }
    assert("exe"@ != "mov"@) by { assert("exe"@[0] != "mov"@[0]); }
    assert("exe"@ != "webm"@) by { assert("exe"@.len() != "webm"@.len()); }
    assert("exe"@ != "mp3"@) by { assert("exe"@[0] != "mp3"@[0]); }
    assert("exe"@ != "wav"@) by { assert("exe"@[0] != "wav"@[0]); }
    assert("exe"@ != "flac"@) by { assert("exe"@.len() != "flac"@.len()); }
    assert("exe"@ != "aac"@) by { assert("exe"@[0] != "aac"@[0]); }
    assert("exe"@ != "ogg"@) by { assert("exe"@[0] != "ogg"@[0]); }
    assert("exe"@ != "pdf"@) by { assert("exe"@[0] != "pdf"@[0]); }
    assert("exe"@ != "doc"@) by { assert("exe"@[0] != "doc"@[0]); }
    assert("exe"@ != "docx"@) by { assert("exe"@.len() != "docx"@.len()); }
    assert("exe"@ != "txt"@) by { assert("exe"@[0] != "txt"@[0]); }
    assert("exe"@ != "rtf"@) by { assert("exe"@[0] != "rtf"@[0]); }
    assert("exe"@ != "zip"@) by { assert("exe"@[0] != "zip"@[0]); }
    assert("exe"@ != "tar"@) by { assert("exe"@[0] != "tar"@[0]); }
    assert("exe"@ != "gz"@) by { assert("exe"@.len() != "gz"@.len()); }
    assert("exe"@ != "7z"@) by { assert("exe"@.len() != "7z"@.len()); }
    assert("exe"@ != "rar"@) by { assert("exe"@[0] != "rar"@[0]); }
    assert("msi"@ != "jpg"@) by { assert("msi"@[0] != "jpg"@[0]); }
    assert("msi"@ != "jpeg"@) by { assert("msi"@.len() != "jpeg"@.len()); }
    assert("msi"@ != "png"@) by { assert("msi"@[0] != "png"@[0]); }
    assert("msi"@ != "gif"@) by { assert("msi"@[0] != "gif"@[0]); }
    assert("msi"@ != "webp"@) by { assert("msi"@.len() != "webp"@.len()); }
    assert("msi"@ != "bmp"@) by { assert("msi"@[0] != "bmp"@[0]); }
    assert("msi"@ != "mp4"@) by { assert("msi"@[1] != "mp4"@[1]); }
    assert("msi"@ != "mkv"@) by { assert("msi"@[1] != "mkv"@[1]); }
    assert("msi"@ != "avi"@) by { assert("msi"@[0] != "avi"@[0]); }
    assert("msi"@ != "mov"@) by { assert("msi"@[1] != "mov"@[1]); }
    assert("msi"@ != "webm"@) by { assert("msi"@.len() != "webm"@.len()); }
    assert("msi"@ != "mp3"@) by { assert("msi"@[1] != "mp3"@[1]); }
    assert("msi"@ != "wav"@) by { assert("msi"@[0] != "wav"@[0]); }
    assert("msi"@ != "flac"@) by { assert("msi"@.len() != "flac"@.len()); }
    assert("msi"@ != "aac"@) by { assert("msi"@[0] != "aac"@[0]); }
    assert("msi"@ != "ogg"@) by { assert("msi"@[0] != "ogg"@[0]); }
    assert("msi"@ != "pdf"@) by { assert("msi"@[0] != "pdf"@[0]); }
    assert("msi"@ != "doc"@) by { assert("msi"@[0] != "doc"@[0]); }
    assert("msi"@ != "docx"@) by { assert("msi"@.len() != "docx"@.len()); }
    assert("msi"@ != "txt"@) by { assert("msi"@[0] != "txt"@[0]); }
    assert("msi"@ != "rtf"@) by { assert("msi"@[0] != "rtf"@[0]); }
    assert("msi"@ != "zip"@) by { assert("msi"@[0] != "zip"@[0]); }
    assert("msi"@ != "tar"@) by { assert("msi"@[0] != "tar"@[0]); }
    assert("msi"@ != "gz"@) by { assert("msi"@.len() != "gz"@.len()); }
    assert("msi"@ != "7z"@) by { assert("msi"@.len() != "7z"@.len()); }
    assert("msi"@ != "rar"@) by { assert("msi"@[0] != "rar"@[0]); }
    assert("dmg"@ != "jpg"@) by { assert("dmg"@[0] != "jpg"@[0]); }
    assert("dmg"@ != "jpeg"@) by { assert("dmg"@.len() != "jpeg"@.len()); }
    assert("dmg"@ != "png"@) by { assert("dmg"@[0] != "png"@[0]); }
    assert("dmg"@ != "gif"@) by { assert("dmg"@[0] != "gif"@[0]); }
    assert("dmg"@ != "webp"@) by { assert("dmg"@.len() != "webp"@.len()); }
    assert("dmg"@ != "bmp"@) by { assert("dmg"@[0] != "bmp"@[0]); }
    assert("dmg"@ != "mp4"@) by { assert("dmg"@[0] != "mp4"@[0]); }
    assert("dmg"@ != "mkv"@) by { assert("dmg"@[0] != "mkv"@[0]); }
    assert("dmg"@ != "avi"@) by { assert("dmg"@[0] != "avi"@[0]); }
    assert("dmg"@ != "mov"@) by { assert("dmg"@[0] != "mov"@[0]); }
    assert("dmg"@ != "webm"@) by { assert("dmg"@.len() != "webm"@.len()); }
    assert("dmg"@ != "mp3"@) by { assert("dmg"@[0] != "mp3"@[0]); }
    assert("dmg"@ != "wav"@) by { assert("dmg"@[0] != "wav"@[0]); }
    assert("dmg"@ != "flac"@) by { assert("dmg"@.len() != "flac"@.len()); }
    assert("dmg"@ != "aac"@) by { assert("dmg"@[0] != "aac"@[0]); }
    assert("dmg"@ != "ogg"@) by { assert("dmg"@[0] != "ogg"@[0]); }
    assert("dmg"@ != "pdf"@) by { assert("dmg"@[0] != "pdf"@[0]); }
    assert("dmg"@ != "doc"@) by { assert("dmg"@[1] != "doc"@[1]); }
    assert("dmg"@ != "docx"@) by { assert("dmg"@.len() != "docx"@.len()); }
    assert("dmg"@ != "txt"@) by { assert("dmg"@[0] != "txt"@[0]); }
    assert("dmg"@ != "rtf"@) by { assert("dmg"@[0] != "rtf"@[0]); }
    assert("dmg"@ != "zip"@) by { assert("dmg"@[0] != "zip"@[0]); }
    assert("dmg"@ != "tar"@) by { assert("dmg"@[0] != "tar"@[0]); }
    assert("dmg"@ != "gz"@) by { assert("dmg"@.len() != "gz"@.len()); }
    assert("dmg"@ != "7z"@) by { assert("dmg"@.len() != "7z"@.len()); }
    assert("dmg"@ != "rar"@) by { assert("dmg"@[0] != "rar"@[0]); }
    assert("deb"@ != "jpg"@) by { assert("deb"@[0] != "jpg"@[0]); }
    assert("deb"@ != "jpeg"@) by { assert("deb"@.len() != "jpeg"@.len()); }
    assert("deb"@ != "png"@) by { assert("deb"@[0] != "png"@[0]); }
    assert("deb"@ != "gif"@) by { assert("deb"@[0] != "gif"@[0]); }
    assert("deb"@ != "webp"@) by { assert("deb"@.len() != "webp"@.len()); }
    assert("deb"@ != "bmp"@) by { assert("deb"@[0] != "bmp"@[0]); }
    assert("deb"@ != "mp4"@) by { assert("deb"@[0] != "mp4"@[0]); }
    assert("deb"@ != "mkv"@) by { assert("deb"@[0] != "mkv"@[0]); }
    assert("deb"@ != "avi"@) by { assert("deb"@[0] != "avi"@[0]); }
    assert("deb"@ != "mov"@) by { assert("deb"@[0] != "mov"@[0]); }
    assert("deb"@ != "webm"@) by { assert("deb"@.len() != "webm"@.len()); }
    assert("deb"@ != "mp3"@) by { assert("deb"@[0] != "mp3"@[0]); }
    assert("deb"@ != "wav"@) by { assert("deb"@[0] != "wav"@[0]); }
    assert("deb"@ != "flac"@) by { assert("deb"@.len() != "flac"@.len()); }
    assert("deb"@ != "aac"@) by { assert("deb"@[0] != "aac"@[0]); }
    assert("deb"@ != "ogg"@) by { assert("deb"@[0] != "ogg"@[0]); }
    assert("deb"@ != "pdf"@) by { assert("deb"@[0] != "pdf"@[0]); }
    assert("deb"@ != "doc"@) by { assert("deb"@[1] != "doc"@[1]); }
    assert("deb"@ != "docx"@) by { assert("deb"@.len() != "docx"@.len()); }
    assert("deb"@ != "txt"@) by { assert("deb"@[0] != "txt"@[0]); }
    assert("deb"@ != "rtf"@) by { assert("deb"@[0] != "rtf"@[0]); }
    assert("deb"@ != "zip"@) by { assert("deb"@[0] != "zip"@[0]); }
    assert("deb"@ != "tar"@) by { assert("deb"@[0] != "tar"@[0]); }
    assert("deb"@ != "gz"@) by { assert("deb"@.len() != "gz"@.len()); }
    assert("deb"@ != "7z"@) by { assert("deb"@.len() != "7z"@.len()); }
    assert("deb"@ != "rar"@) by { assert("deb"@[0] != "rar"@[0]); }
    assert("rpm"@ != "jpg"@) by { assert("rpm"@[0] != "jpg"@[0]); }
    assert("rpm"@ != "jpeg"@) by { assert("rpm"@.len() != "jpeg"@.len()); }
    assert("rpm"@ != "png"@) by { assert("rpm"@[0] != "png"@[0]); }
    assert("rpm"@ != "gif"@) by { assert("rpm"@[0] != "gif"@[0]); }
    assert("rpm"@ != "webp"@) by { assert("rpm"@.len() != "webp"@.len()); }
    assert("rpm"@ != "bmp"@) by { assert("rpm"@[0] != "bmp"@[0]); }
    assert("rpm"@ != "mp4"@) by { assert("rpm"@[0] != "mp4"@[0]); }
    assert("rpm"@ != "mkv"@) by { assert("rpm"@[0] != "mkv"@[0]); }
    assert("rpm"@ != "avi"@) by { assert("rpm"@[0] != "avi"@[0]); }
    assert("rpm"@ != "mov"@) by { assert("rpm"@[0] != "mov"@[0]); }
    assert("rpm"@ != "webm"@) by { assert("rpm"@.len() != "webm"@.len()); }
    assert("rpm"@ != "mp3"@) by { assert("rpm"@[0] != "mp3"@[0]); }
    assert("rpm"@ != "wav"@) by { assert("rpm"@[0] != "wav"@[0]); }
    assert("rpm"@ != "flac"@) by { assert("rpm"@.len() != "flac"@.len()); }
    assert("rpm"@ != "aac"@) by { assert("rpm"@[0] != "aac"@[0]); }
    assert("rpm"@ != "ogg"@) by { assert("rpm"@[0] != "ogg"@[0]); }
    assert("rpm"@ != "pdf"@) by { assert("rpm"@[0] != "pdf"@[0]); }
    assert("rpm"@ != "doc"@) by { assert("rpm"@[0] != "doc"@[0]); }
    assert("rpm"@ != "docx"@) by { assert("rpm"@.len() != "docx"@.len()); }
    assert("rpm"@ != "txt"@) by { assert("rpm"@[0] != "txt"@[0]); }
    assert("rpm"@ != "rtf"@) by { assert("rpm"@[1] != "rtf"@[1]); }
    assert("rpm"@ != "zip"@) by { assert("rpm"@[0] != "zip"@[0]); }
    assert("rpm"@ != "tar"@) by { assert("rpm"@[0] != "tar"@[0]); }
    assert("rpm"@ != "gz"@) by { assert("rpm"@.len() != "gz"@.len()); }
    assert("rpm"@ != "7z"@) by { assert("rpm"@.len() != "7z"@.len()); }
    assert("rpm"@ != "rar"@) by { assert("rpm"@[1] != "rar"@[1]); }
}

/// The extension table: each listed extension (lowercase) has its class,
/// and an extension not listed is a plain file.
pub proof fn lemma_extension_classes(ext: Seq<char>)
    ensures
        file_type_of_extension("jpg"@) == "image"@,
        file_type_of_extension("jpeg"@) == "image"@,
        file_type_of_extension("png"@) == "image"@,
        file_type_of_extension("gif"@) == "image"@,
        file_type_of_extension("webp"@) == "image"@,
        file_type_of_extension("bmp"@) == "image"@,
        file_type_of_extension("mp4"@) == "video"@,
        file_type_of_extension("mkv"@) == "video"@,
        file_type_of_extension("avi"@) == "video"@,
        file_type_of_extension("mov"@) == "video"@,
        file_type_of_extension("webm"@) == "video"@,
        file_type_of_extension("mp3"@) == "audio"@,
        file_type_of_extension("wav"@) == "audio"@,
        file_type_of_extension("flac"@) == "audio"@,
        file_type_of_extension("aac"@) == "audio"@,
        file_type_of_extension("ogg"@) == "audio"@,
        file_type_of_extension("pdf"@) == "document"@,
        file_type_of_extension("doc"@) == "document"@,
        file_type_of_extension("docx"@) == "document"@,
        file_type_of_extension("txt"@) == "document"@,
        file_type_of_extension("rtf"@) == "document"@,
        file_type_of_extension("zip"@) == "archive"@,
        file_type_of_extension("tar"@) == "archive"@,
        file_type_of_extension("gz"@) == "archive"@,
        file_type_of_extension("7z"@) == "archive"@,
        file_type_of_extension("rar"@) == "archive"@,
        file_type_of_extension("exe"@) == "application"@,
        file_type_of_extension("msi"@) == "application"@,
        file_type_of_extension("dmg"@) == "application"@,
        file_type_of_extension("deb"@) == "application"@,
        file_type_of_extension("rpm"@) == "application"@,
        !listed_extension(ext) ==> file_type_of_extension(ext) == "file"@,
{
    lemma_image_extensions();
    lemma_video_extensions();
    lemma_audio_extensions();
    lemma_document_extensions();
    lemma_archive_extensions();
    lemma_application_extensions();
}

/// The extensions the table lists.
pub open spec fn listed_extension(ext: Seq<char>) -> bool {
    ext == "jpg"@ || ext == "jpeg"@ || ext == "png"@ || ext == "gif"@ || ext == "webp"@ || ext
        == "bmp"@ || ext == "mp4"@ || ext == "mkv"@ || ext == "avi"@ || ext == "mov"@ || ext
        == "webm"@ || ext == "mp3"@ || ext == "wav"@ || ext == "flac"@ || ext == "aac"@ || ext
        == "ogg"@ || ext == "pdf"@ || ext == "doc"@ || ext == "docx"@ || ext == "txt"@ || ext
        == "rtf"@ || ext == "zip"@ || ext == "tar"@ || ext == "gz"@ || ext == "7z"@ || ext
        == "rar"@ || ext == "exe"@ || ext == "msi"@ || ext == "dmg"@ || ext == "deb"@ || ext
        == "rpm"@
}

/// The guess for an ASCII file name `stem.ext` (with no `'.'` in `ext`)
/// is the class of `ext` lowercased, whatever the stem: the text after the
/// last dot decides, and case does not matter.
pub proof fn lemma_guess_is_class_of_extension(stem: Seq<char>, ext: Seq<char>, t: Seq<char>)
    requires
        !ext.contains('.'),
        is_guessed_type_ascii(stem + seq!['.'] + ext, t),
    ensures
        t == file_type_of_extension(ascii_lowercase(ext)),
{
    let name = stem + seq!['.'] + ext;
    assert(name.contains('.')) by {
        assert(name[stem.len() as int] == '.');
    }
    let e = choose|e: Seq<char>| is_last_segment(name, e) && t == file_type_of_extension(
        ascii_lowercase(e),
    );
    let n = name.len();
    let k = ext.len();
    if e.len() < k {
        assert(name[n - e.len() - 1] == ext[k - e.len() - 1]);
        assert(ext.contains(ext[k - e.len() - 1]));
        assert(false);
    } else if e.len() > k {
        assert(e[e.len() - k - 1] == name[n - k - 1]);
        assert(name[n - k - 1] == '.');
        assert(e.contains('.'));
        assert(false);
    }
    assert(e =~= ext) by {
        assert forall|i: int| 0 <= i < k implies e[i] == ext[i] by {
            assert(e[i] == name[n - k + i]);
        }
    }
}

/// Guess the file type class from the file extension, the text after the
/// last `'.'` of the file name, compared case-insensitively. A name without
/// a `'.'` has no extension and is a plain file.
pub fn guess_file_type(file_name: &str) -> (t: String)
    ensures
        is_guessed_type(file_name@, t@),
        is_ascii_text(file_name@) ==> is_guessed_type_ascii(file_name@, t@),
{
    if !contains_char(file_name, '.') {
        return String::from_str("file");
    }
    let ext_text = last_segment(file_name);
    let ext = to_lowercase(ext_text);
    let class = if eq_lit(&ext, "jpg") || eq_lit(&ext, "jpeg") || eq_lit(&ext, "png") || eq_lit(
        &ext,
        "gif",
    ) || eq_lit(&ext, "webp") || eq_lit(&ext, "bmp") {
        "image"
    } else if eq_lit(&ext, "mp4") || eq_lit(&ext, "mkv") || eq_lit(&ext, "avi") || eq_lit(
        &ext,
        "mov",
    ) || eq_lit(&ext, "webm") {
        "video"
    } else if eq_lit(&ext, "mp3") || eq_lit(&ext, "wav") || eq_lit(&ext, "flac") || eq_lit(
        &ext,
        "aac",
    ) || eq_lit(&ext, "ogg") {
        "audio"
    } else if eq_lit(&ext, "pdf") || eq_lit(&ext, "doc") || eq_lit(&ext, "docx") || eq_lit(
        &ext,
        "txt",
    ) || eq_lit(&ext, "rtf") {
        "document"
    } else if eq_lit(&ext, "zip") || eq_lit(&ext, "tar") || eq_lit(&ext, "gz") || eq_lit(
        &ext,
        "7z",
    ) || eq_lit(&ext, "rar") {
        "archive"
    } else if eq_lit(&ext, "exe") || eq_lit(&ext, "msi") || eq_lit(&ext, "dmg") || eq_lit(
        &ext,
        "deb",
    ) || eq_lit(&ext, "rpm") {
        "application"
    } else {
        "file"
    };
    let t = String::from_str(class);
    assert(t@ == file_type_of_extension(lowercase_of(ext_text@)));
    proof {
        if is_ascii_text(file_name@) {
            let n = file_name@.len();
            let k = ext_text@.len();
            assert forall|i: int| 0 <= i < k implies (#[trigger] ext_text@[i] as u32) < 128 by {
                assert(ext_text@[i] == file_name@[n - k + i]);
            }
            assert(t@ == file_type_of_extension(ascii_lowercase(ext_text@)));
        }
    }
    t
}

/// `entries` lists each key of `m` exactly once, with its value.
pub open spec fn entries_represent(
    entries: Seq<(String, String)>,
    m: Map<Seq<char>, Seq<char>>,
) -> bool {
    &&& forall|i: int, j: int|
        0 <= i < j < entries.len() ==> #[trigger] entries[i].0@ != #[trigger] entries[j].0@
    &&& forall|i: int|
        0 <= i < entries.len() ==> m.contains_key(#[trigger] entries[i].0@) && m[entries[i].0@]
            == entries[i].1@
    &&& forall|k: Seq<char>|
        #[trigger] m.contains_key(k) ==> exists|i: int|
            0 <= i < entries.len() && #[trigger] entries[i].0@ == k
}

/// Manages transfer authorization and the trusted device list.
pub struct AuthManager {
    /// Trusted devices: (device ID, device name), one entry per ID. vstd
    /// specifies `HashMap` only for keys it knows to hash consistently
    /// (integers and the like), not for `String` keys, so this is a vector
    /// of pairs.
    trusted_devices: Vec<(String, String)>,
    /// The trusted devices as a map from ID to name.
    trusted: Ghost<Map<Seq<char>, Seq<char>>>,
    /// Whether transfers from trusted devices are accepted without asking.
    auto_accept_trusted: bool,
}

impl AuthManager {
    #[verifier::type_invariant]
    closed spec fn entries_match(&self) -> bool {
        entries_represent(self.trusted_devices@, self.trusted@)
    }

    /// The trusted devices: ID to name.
    pub closed spec fn trusted_map(&self) -> Map<Seq<char>, Seq<char>> {
        self.trusted@
    }

    /// Whether auto-accept for trusted devices is on.
    pub closed spec fn auto_accept(&self) -> bool {
        self.auto_accept_trusted
    }

    /// No trusted devices, auto-accept off.
    pub fn new() -> (m: Self)
        ensures
            m.trusted_map() == Map::<Seq<char>, Seq<char>>::empty(),
            !m.auto_accept(),
    {
        AuthManager {
            trusted_devices: Vec::new(),
            trusted: Ghost(Map::empty()),
            auto_accept_trusted: false,
        }
    }

    /// A copy of the entry list.
    fn copy_entries(&self) -> (list: Vec<(String, String)>)
        ensures
            list@ == self.trusted_devices@,
    {
        let mut list: Vec<(String, String)> = Vec::new();
        let mut i: usize = 0;
        while i < self.trusted_devices.len()
            invariant
                i <= self.trusted_devices@.len(),
                list@ == self.trusted_devices@.subrange(0, i as int),
            decreases self.trusted_devices@.len() - i,
        {
            let entry = &self.trusted_devices[i];
            list.push((entry.0.clone(), entry.1.clone()));
            i = i + 1;
            assert(list@ =~= self.trusted_devices@.subrange(0, i as int));
        }
        assert(list@ =~= self.trusted_devices@);
        list
    }

    /// Position of a device in the list.
    fn find(&self, device_id: &str) -> (r: Option<usize>)
        ensures
            match r {
                Some(i) => i < self.trusted_devices@.len() && self.trusted_devices@[i as int].0@
                    == device_id@,
                None => !self.trusted_map().contains_key(device_id@),
            },
    {
        proof {
            use_type_invariant(self);
        }
        let key = String::from_str(device_id);
        let mut i: usize = 0;
        while i < self.trusted_devices.len()
            invariant
                i <= self.trusted_devices@.len(),
                key@ == device_id@,
                forall|k: int| 0 <= k < i ==> self.trusted_devices@[k].0@ != device_id@,
            decreases self.trusted_devices@.len() - i,
        {
            if self.trusted_devices[i].0 == key {
                return Some(i);
            }
            i = i + 1;
        }
        None
    }

    /// Whether a transfer from this device is accepted without asking:
    /// auto-accept is on and the device is trusted.
    pub fn should_auto_accept(&self, device_id: &str) -> (b: bool)
        ensures
            b == (self.auto_accept() && self.trusted_map().contains_key(device_id@)),
    {
        if !self.auto_accept_trusted {
            return false;
        }
        self.is_trusted(device_id)
    }

    /// Add a device to the trusted list (or rename it if already there).
    pub fn trust_device(&mut self, device_id: String, device_name: String)
        ensures
            final(self).trusted_map() == old(self).trusted_map().insert(device_id@, device_name@),
            final(self).auto_accept() == old(self).auto_accept(),
    {
        proof {
            use_type_invariant(&*self);
        }
        let ghost new_map = self.trusted@.insert(device_id@, device_name@);
        let found = self.find(device_id.as_str());
        let mut list = self.copy_entries();
        match found {
            Some(i) => {
                list.set(i, (device_id, device_name));
            },
            None => {
                list.push((device_id, device_name));
            },
        }
        proof {
            let old_list = self.trusted_devices@;
            assert forall|a: int, b: int| 0 <= a < b < list@.len() implies list@[a].0@
                != list@[b].0@ by {
                match found {
                    Some(i) => {
                        if a != i && b != i {
                            assert(list@[a] == old_list[a] && list@[b] == old_list[b]);
                        } else if a == i {
                            assert(list@[b] == old_list[b]);
                            assert(old_list[a].0@ == device_id@);
                        } else {
                            assert(list@[a] == old_list[a]);
                            assert(old_list[b].0@ == device_id@);
                        }
                    },
                    None => {
                        if b < old_list.len() {
                            assert(list@[a] == old_list[a] && list@[b] == old_list[b]);
                        } else {
                            assert(list@[a] == old_list[a]);
                            assert(self.trusted@.contains_key(old_list[a].0@));
                        }
                    },
                }
            }
            assert forall|a: int| 0 <= a < list@.len() implies new_map.contains_key(
                #[trigger] list@[a].0@,
            ) && new_map[list@[a].0@] == list@[a].1@ by {
                match found {
                    Some(i) => {
                        if a != i {
                            assert(list@[a] == old_list[a]);
                            assert(old_list[i as int].0@ == device_id@);
                            assert(old_list[a].0@ != device_id@);
                        }
                    },
                    None => {
                        if a < old_list.len() {
                            assert(list@[a] == old_list[a]);
                            assert(self.trusted@.contains_key(old_list[a].0@));
                            assert(old_list[a].0@ != device_id@);
                        }
                    },
                }
            }
            assert forall|k: Seq<char>| #[trigger] new_map.contains_key(k) implies exists|i: int|
                0 <= i < list@.len() && list@[i].0@ == k by {
                if k == device_id@ {
                    match found {
                        Some(i) => assert(list@[i as int].0@ == k),
                        None => assert(list@[list@.len() - 1].0@ == k),
                    }
                } else {
                    assert(self.trusted@.contains_key(k));
                    let j = choose|j: int|
                        0 <= j < self.trusted_devices@.len() && self.trusted_devices@[j].0@ == k;
                    match found {
                        Some(i) => {
                            assert(j != i);
                            assert(list@[j].0@ == k);
                        },
                        None => {
                            assert(list@[j].0@ == k);
                        },
                    }
                }
            }
        }
        *self = AuthManager {
            trusted_devices: list,
            trusted: Ghost(new_map),
            auto_accept_trusted: self.auto_accept_trusted,
        };
    }

    /// Remove a device from the trusted list.
    pub fn untrust_device(&mut self, device_id: &str)
        ensures
            final(self).trusted_map() == old(self).trusted_map().remove(device_id@),
            final(self).auto_accept() == old(self).auto_accept(),
    {
        proof {
            use_type_invariant(&*self);
        }
        let ghost new_map = self.trusted@.remove(device_id@);
        match self.find(device_id) {
            Some(i) => {
                let mut list = self.copy_entries();
                let ghost before = list@;
                list.remove(i);
                proof {
                    assert forall|a: int, b: int| 0 <= a < b < list@.len() implies list@[a].0@
                        != list@[b].0@ by {
                        let a2 = if a < i { a } else { a + 1 };
                        let b2 = if b < i { b } else { b + 1 };
                        assert(list@[a] == before[a2]);
                        assert(list@[b] == before[b2]);
                    }
                    assert forall|a: int| 0 <= a < list@.len() implies new_map.contains_key(
                        #[trigger] list@[a].0@,
                    ) && new_map[list@[a].0@] == list@[a].1@ by {
                        let a2 = if a < i { a } else { a + 1 };
                        assert(list@[a] == before[a2]);
                    }
                    assert forall|k: Seq<char>| #[trigger] new_map.contains_key(k) implies exists|
                        a: int,
                    | 0 <= a < list@.len() && list@[a].0@ == k by {
                        let j = choose|j: int| 0 <= j < before.len() && before[j].0@ == k;
                        if j < i {
                            assert(list@[j].0@ == k);
                        } else {
                            assert(j != i);
                            assert(list@[j - 1].0@ == k);
                        }
                    }
                }
                *self = AuthManager {
                    trusted_devices: list,
                    trusted: Ghost(new_map),
                    auto_accept_trusted: self.auto_accept_trusted,
                };
            },
            None => {
                assert(new_map =~= self.trusted@);
            },
        }
    }

    /// Whether a device is trusted.
    pub fn is_trusted(&self, device_id: &str) -> (b: bool)
        ensures
            b == self.trusted_map().contains_key(device_id@),
    {
        proof {
            use_type_invariant(self);
        }
        match self.find(device_id) {
            Some(i) => true,
            None => false,
        }
    }

    /// The trusted devices as (ID, name) pairs, one per device.
    pub fn trusted_devices(&self) -> (list: Vec<(String, String)>)
        ensures
            forall|i: int|
                0 <= i < list@.len() ==> self.trusted_map().contains_key(#[trigger] list@[i].0@)
                    && self.trusted_map()[list@[i].0@] == list@[i].1@,
            forall|k: Seq<char>|
                #[trigger] self.trusted_map().contains_key(k) ==> exists|i: int|
                    0 <= i < list@.len() && list@[i].0@ == k,
            forall|i: int, j: int| 0 <= i < j < list@.len() ==> list@[i].0@ != list@[j].0@,
    {
        proof {
            use_type_invariant(self);
        }
        self.copy_entries()
    }

    /// Build a request record for an incoming transfer, under a fresh
    /// random request ID. The file type is guessed from the file name; the
    /// sender is not marked trusted.
    pub fn create_request(
        sender_name: &str,
        sender_device_id: &str,
        file_name: &str,
        file_size: u64,
    ) -> (r: TransferRequest)
        ensures
            is_uuid_text(r.request_id@),
            r.sender_name@ == sender_name@,
            r.sender_device_id@ == sender_device_id@,
            r.file_name@ == file_name@,
            r.file_size == file_size,
            is_guessed_type(file_name@, r.file_type@),
            is_ascii_text(file_name@) ==> is_guessed_type_ascii(file_name@, r.file_type@),
            !r.is_trusted,
    {
        TransferRequest {
            request_id: new_uuid_v4_string(),
            sender_name: String::from_str(sender_name),
            sender_device_id: String::from_str(sender_device_id),
            file_name: String::from_str(file_name),
            file_size,
            file_type: guess_file_type(file_name),
            is_trusted: false,
        }
    }

    /// Switch auto-accept for trusted devices on or off.
    pub fn set_auto_accept(&mut self, enabled: bool)
        ensures
            final(self).auto_accept() == enabled,
            final(self).trusted_map() == old(self).trusted_map(),
    {
        proof {
            use_type_invariant(&*self);
        }
        let list = self.copy_entries();
        *self = AuthManager {
            trusted_devices: list,
            trusted: Ghost(self.trusted@),
            auto_accept_trusted: enabled,
        };
    }
}

} // verus!
