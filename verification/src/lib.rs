//! Verified core of a media-transcoding pipeline: a catalog of discovered
//! files, a FIFO task queue, a line-oriented encoder progress parser, the
//! worker-loop decision logic, and the event fan-out state mirror.

pub mod cancel;
pub mod codecs;
pub mod commands;
pub mod components;
pub mod compressor;
pub mod containers;
pub mod error;
pub mod ffmpeg;
pub mod file_path_handler;
pub mod filelist;
pub mod filelistitem;
pub mod filescanner;
pub mod fstools;
pub mod numstr;
pub mod paths;
pub mod probe;
pub mod quality;
pub mod queue_processor;
pub mod state_mirror;
pub mod task_queue;
pub mod text;
pub mod transcode_state;
pub mod transcode_task;
pub mod transcoder;
