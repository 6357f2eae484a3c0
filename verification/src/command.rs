//! The outside programs and what they are asked to do.
use vstd::prelude::*;
use vstd::string::*;

verus! {

/// A program and its arguments.
#[derive(Debug)]
pub struct Command {
    pub program: String,
    pub args: Vec<String>,
}

/// The model of a [`Command`].
#[verifier::ext_equal]
pub struct CommandView {
    pub program: Seq<char>,
    pub args: Seq<Seq<char>>,
}

impl View for Command {
    type V = CommandView;

    open spec fn view(&self) -> CommandView {
        CommandView { program: self.program@, args: self.args.deep_view() }
    }
}

impl Command {
    /// The program without arguments.
    pub fn new(program: &str) -> (command: Command)
        ensures
            command@ == (CommandView { program: program@, args: seq![] }),
    {
        let command = Command { program: program.to_owned(), args: Vec::new() };
        assert(command.args.deep_view() =~= seq![]);
        command
    }

    /// The same command with one more argument.
    pub fn arg(self, word: &str) -> (command: Command)
        ensures
            command@ == (CommandView { program: self@.program, args: self@.args.push(word@) }),
    {
        let ghost before = self.args.deep_view();
        let mut command = self;
        command.args.push(word.to_owned());
        assert(command.args.deep_view() =~= before.push(word@));
        command
    }
}

/// The command that fetches `url`: the best audio with at most 720 lines of picture, into `tmp`,
/// and from there, once complete, to `target`.
pub open spec fn fetch_command(url: Seq<char>, tmp: Seq<char>, target: Seq<char>) -> CommandView {
    CommandView {
        program: "yt-dlp"@,
        args: seq![
            "-o"@,
            tmp,
            "--max-downloads"@,
            "1"@,
            "-f"@,
            "ba*"@,
            "-S"@,
            "+res:720"@,
            "--exec"@,
            "mv {} "@ + target,
            url,
        ],
    }
}

/// The command that fetches `url`.
pub fn fetch(url: &str, tmp: &str, target: &str) -> (command: Command)
    ensures
        command@ == fetch_command(url@, tmp@, target@),
        command.program@ == "yt-dlp"@,
        command.args@.len() == 11,
        command.args@[1]@ == tmp@,
        command.args@[9]@ == "mv {} "@ + target@,
        command.args@[10]@ == url@,
{
    let mut then = "mv {} ".to_owned();
    then.append(target);
    let command = Command::new("yt-dlp")
        .arg("-o")
        .arg(tmp)
        .arg("--max-downloads")
        .arg("1")
        .arg("-f")
        .arg("ba*")
        .arg("-S")
        .arg("+res:720")
        .arg("--exec")
        .arg(then.as_str())
        .arg(url);
    proof {
        lemma_model_of_a_command(command);
        lemma_fetch_arguments(url@, tmp@, target@);
        assert(command@ == fetch_command(url@, tmp@, target@));
        assert(command@.args[1] == command.args@[1]@);
        assert(command@.args[9] == command.args@[9]@);
        assert(command@.args[10] == command.args@[10]@);
    }
    command
}

/// The command that reports on the streams of `file`, as JSON.
pub open spec fn probe_command(file: Seq<char>) -> CommandView {
    CommandView {
        program: "ffprobe"@,
        args: seq![
            "-v"@,
            "quiet"@,
            "-print_format"@,
            "json"@,
            "-show_format"@,
            "-show_streams"@,
            file,
        ],
    }
}

/// The command that reports on the streams of `file`.
pub fn probe(file: &str) -> (command: Command)
    ensures
        command@ == probe_command(file@),
{
    Command::new("ffprobe")
        .arg("-v")
        .arg("quiet")
        .arg("-print_format")
        .arg("json")
        .arg("-show_format")
        .arg("-show_streams")
        .arg(file)
}

/// The command that writes the cover image of `file` to `cover`.
pub open spec fn cover_command(file: Seq<char>, cover: Seq<char>) -> CommandView {
    CommandView { program: "ffmpeg"@, args: seq!["-i"@, file, cover] }
}

/// The command that writes the cover image of `file` to `cover`.
pub fn extract_cover(file: &str, cover: &str) -> (command: Command)
    ensures
        command@ == cover_command(file@, cover@),
{
    Command::new("ffmpeg").arg("-i").arg(file).arg(cover)
}

/// Where the picture of the transcoded file comes from.
#[derive(Debug, Clone, Copy, PartialEq, Eq, Structural)]
pub enum Picture {
    /// The file's own video stream.
    Video,
    /// Its cover image, shown throughout.
    Cover,
    /// A drawing of its sound.
    Scope,
}

/// The arguments that give the transcoded file its picture.
pub open spec fn picture_args(picture: Picture, cover: Seq<char>) -> Seq<Seq<char>> {
    match picture {
        Picture::Video => seq![],
        Picture::Cover => seq![
            "-loop"@,
            "1"@,
            "-framerate"@,
            "10"@,
            "-i"@,
            cover,
            "-map"@,
            "1:v:0"@,
            "-map"@,
            "0:a:0"@,
            "-tune"@,
            "stillimage"@,
            "-shortest"@,
            "-shortest_buf_duration"@,
            "60"@,
        ],
        Picture::Scope => seq!["-filter_complex"@, "[0:a]a3dscope=s=848x480:r=24"@],
    }
}

/// The arguments that scale the picture. A drawn one has its size already.
pub open spec fn scale_args(picture: Picture) -> Seq<Seq<char>> {
    match picture {
        Picture::Scope => seq![],
        _ => seq!["-vf"@, "scale=-2:720:flags=lanczos"@],
    }
}

/// The arguments that name the encoding and the file that is written.
pub open spec fn encode_args(target: Seq<char>) -> Seq<Seq<char>> {
    seq![
        "-pix_fmt"@,
        "yuv420p"@,
        "-movflags"@,
        "faststart"@,
        "-c:v"@,
        "libx264"@,
        "-preset"@,
        "veryfast"@,
        "-crf"@,
        "28"@,
        "-c:a"@,
        "aac"@,
        "-b:a"@,
        "280k"@,
        "-f"@,
        "mp4"@,
        target,
    ]
}

/// The command that transcodes `file` to `target`.
pub open spec fn transcode_command(
    file: Seq<char>,
    cover: Seq<char>,
    target: Seq<char>,
    picture: Picture,
) -> CommandView {
    CommandView {
        program: "ffmpeg"@,
        args: seq!["-i"@, file] + picture_args(picture, cover) + scale_args(picture) + encode_args(
            target,
        ),
    }
}

/// The command that transcodes `file` to `target`.
pub fn transcode(file: &str, cover: &str, target: &str, picture: Picture) -> (command: Command)
    ensures
        command@ == transcode_command(file@, cover@, target@, picture),
        command.program@ == "ffmpeg"@,
        command.args@.len() >= 19,
        command.args@[0]@ == "-i"@,
        command.args@[1]@ == file@,
        command.args@.last()@ == target@,
{
    let input = Command::new("ffmpeg").arg("-i").arg(file);
    let drawn = match picture {
        Picture::Video => input,
        Picture::Cover => input
            .arg("-loop")
            .arg("1")
            .arg("-framerate")
            .arg("10")
            .arg("-i")
            .arg(cover)
            .arg("-map")
            .arg("1:v:0")
            .arg("-map")
            .arg("0:a:0")
            .arg("-tune")
            .arg("stillimage")
            .arg("-shortest")
            .arg("-shortest_buf_duration")
            .arg("60"),
        Picture::Scope => input.arg("-filter_complex").arg("[0:a]a3dscope=s=848x480:r=24"),
    };
    assert(drawn@.args =~= seq!["-i"@, file@] + picture_args(picture, cover@));
    let scaled = match picture {
        Picture::Scope => drawn,
        _ => drawn.arg("-vf").arg("scale=-2:720:flags=lanczos"),
    };
    assert(scaled@.args =~= seq!["-i"@, file@] + picture_args(picture, cover@) + scale_args(
        picture,
    ));
    let command = scaled
        .arg("-pix_fmt")
        .arg("yuv420p")
        .arg("-movflags")
        .arg("faststart")
        .arg("-c:v")
        .arg("libx264")
        .arg("-preset")
        .arg("veryfast")
        .arg("-crf")
        .arg("28")
        .arg("-c:a")
        .arg("aac")
        .arg("-b:a")
        .arg("280k")
        .arg("-f")
        .arg("mp4")
        .arg(target);
    assert(command@.args =~= scaled@.args + encode_args(target@));
    proof {
        lemma_model_of_a_command(command);
        lemma_transcode_arguments(file@, cover@, target@);
    }
    command
}

/// The model of a command has its program and each of its arguments, in their order.
pub proof fn lemma_model_of_a_command(command: Command)
    ensures
        command@.program == command.program@,
        command@.args.len() == command.args@.len(),
        forall|i: int|
            0 <= i < command.args@.len() ==> #[trigger] command@.args[i] == command.args@[i]@,
{
}

/// The download, argument by argument. The address goes last and as it is.
pub proof fn lemma_fetch_arguments(url: Seq<char>, tmp: Seq<char>, target: Seq<char>)
    ensures
        ({
            let command = fetch_command(url, tmp, target);
            &&& command.program == "yt-dlp"@
            &&& command.args.len() == 11
            &&& command.args[0] == "-o"@
            &&& command.args[1] == tmp
            &&& command.args[2] == "--max-downloads"@
            &&& command.args[3] == "1"@
            &&& command.args[4] == "-f"@
            &&& command.args[5] == "ba*"@
            &&& command.args[6] == "-S"@
            &&& command.args[7] == "+res:720"@
            &&& command.args[8] == "--exec"@
            &&& command.args[9] == "mv {} "@ + target
            &&& command.args[10] == url
            &&& command.args.last() == url
        }),
{
}

/// The probe and the extraction of a cover, argument by argument.
pub proof fn lemma_probe_and_cover_arguments(file: Seq<char>, cover: Seq<char>)
    ensures
        probe_command(file).program == "ffprobe"@,
        probe_command(file).args.len() == 7,
        probe_command(file).args[0] == "-v"@,
        probe_command(file).args[1] == "quiet"@,
        probe_command(file).args[2] == "-print_format"@,
        probe_command(file).args[3] == "json"@,
        probe_command(file).args[4] == "-show_format"@,
        probe_command(file).args[5] == "-show_streams"@,
        probe_command(file).args[6] == file,
        cover_command(file, cover).program == "ffmpeg"@,
        cover_command(file, cover).args.len() == 3,
        cover_command(file, cover).args[0] == "-i"@,
        cover_command(file, cover).args[1] == file,
        cover_command(file, cover).args[2] == cover,
{
}

/// The transcoding, argument by argument, for each source of the picture. The file comes first and
/// the target last. A cover is the second input, and only then are streams mapped. The picture is
/// scaled unless it is drawn.
pub proof fn lemma_transcode_arguments(file: Seq<char>, cover: Seq<char>, target: Seq<char>)
    ensures
        transcode_command(file, cover, target, Picture::Video) == (CommandView {
            program: "ffmpeg"@,
            args: seq![
                "-i"@,
                file,
                "-vf"@,
                "scale=-2:720:flags=lanczos"@,
                "-pix_fmt"@,
                "yuv420p"@,
                "-movflags"@,
                "faststart"@,
                "-c:v"@,
                "libx264"@,
                "-preset"@,
                "veryfast"@,
                "-crf"@,
                "28"@,
                "-c:a"@,
                "aac"@,
                "-b:a"@,
                "280k"@,
                "-f"@,
                "mp4"@,
                target,
            ],
        }),
        transcode_command(file, cover, target, Picture::Cover) == (CommandView {
            program: "ffmpeg"@,
            args: seq![
                "-i"@,
                file,
                "-loop"@,
                "1"@,
                "-framerate"@,
                "10"@,
                "-i"@,
                cover,
                "-map"@,
                "1:v:0"@,
                "-map"@,
                "0:a:0"@,
                "-tune"@,
                "stillimage"@,
                "-shortest"@,
                "-shortest_buf_duration"@,
                "60"@,
                "-vf"@,
                "scale=-2:720:flags=lanczos"@,
                "-pix_fmt"@,
                "yuv420p"@,
                "-movflags"@,
                "faststart"@,
                "-c:v"@,
                "libx264"@,
                "-preset"@,
                "veryfast"@,
                "-crf"@,
                "28"@,
                "-c:a"@,
                "aac"@,
                "-b:a"@,
                "280k"@,
                "-f"@,
                "mp4"@,
                target,
            ],
        }),
        transcode_command(file, cover, target, Picture::Scope) == (CommandView {
            program: "ffmpeg"@,
            args: seq![
                "-i"@,
                file,
                "-filter_complex"@,
                "[0:a]a3dscope=s=848x480:r=24"@,
                "-pix_fmt"@,
                "yuv420p"@,
                "-movflags"@,
                "faststart"@,
                "-c:v"@,
                "libx264"@,
                "-preset"@,
                "veryfast"@,
                "-crf"@,
                "28"@,
                "-c:a"@,
                "aac"@,
                "-b:a"@,
                "280k"@,
                "-f"@,
                "mp4"@,
                target,
            ],
        }),
{
    assert(transcode_command(file, cover, target, Picture::Video).args =~= seq!["-i"@, file]
        + scale_args(Picture::Video) + encode_args(target));
    assert(transcode_command(file, cover, target, Picture::Scope).args =~= seq!["-i"@, file]
        + picture_args(Picture::Scope, cover) + encode_args(target));
}

} // verus!
