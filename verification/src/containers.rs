//! Output container formats and the muxer arguments each one needs.

use vstd::prelude::*;

verus! {

/// A target container format for the converted file.
#[derive(Clone, Copy, Debug, PartialEq, Eq, Structural)]
pub enum Container {
    Matroska,
    MP4,
    QuickTime,
}

/// The muxer arguments for a container, as character sequences.
pub open spec fn container_parameter_seq(container: Container) -> Seq<Seq<char>> {
    match container {
        Container::Matroska => seq!["-f"@, "matroska"@],
        Container::QuickTime => seq!["-movflags"@, "faststart"@, "-f"@, "mov"@],
        Container::MP4 => seq!["-movflags"@, "faststart"@, "-f"@, "mp4"@],
    }
}

impl Container {
    /// The container's format name as passed to the encoder's `-f` flag.
    pub fn to_string(&self) -> (r: String)
        ensures
            *self is Matroska ==> r@ == "matroska"@,
            *self is MP4 ==> r@ == "mp4"@,
            *self is QuickTime ==> r@ == "mov"@,
    {
        match self {
            Container::Matroska => "matroska".to_owned(),
            Container::MP4 => "mp4".to_owned(),
            Container::QuickTime => "mov".to_owned(),
        }
    }

    /// The file extension used for destination paths in this container.
    pub fn extension(container: Container) -> (r: &'static str)
        ensures
            container is Matroska ==> r@ == "mkv"@,
            container is MP4 ==> r@ == "mp4"@,
            container is QuickTime ==> r@ == "mov"@,
    {
        match container {
            Container::Matroska => "mkv",
            Container::MP4 => "mp4",
            Container::QuickTime => "mov",
        }
    }

    /// The muxer arguments appended to every invocation for this container.
    pub fn parameters(container: Container) -> (r: Vec<String>)
        ensures
            r.deep_view() == container_parameter_seq(container),
    {
        let mut r: Vec<String> = Vec::new();
        match container {
            Container::Matroska => {
                r.push("-f".to_owned());
                r.push(container.to_string());
            },
            Container::QuickTime => {
                r.push("-movflags".to_owned());
                r.push("faststart".to_owned());
                r.push("-f".to_owned());
                r.push(container.to_string());
            },
            Container::MP4 => {
                r.push("-movflags".to_owned());
                r.push("faststart".to_owned());
                r.push("-f".to_owned());
                r.push(container.to_string());
            },
        }
        assert(r.deep_view() =~= container_parameter_seq(container));
        r
    }
}

} // verus!
