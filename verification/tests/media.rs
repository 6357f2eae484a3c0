use link_server::command::{extract_cover, fetch, probe, transcode, Command, Picture};
use link_server::probe::{choose_streams, FfprobeOutput, FfprobeStream};

fn stream(index: u32, codec_type: &str, avg_frame_rate: &str) -> FfprobeStream {
    FfprobeStream {
        codec_name: "x".to_string(),
        index,
        avg_frame_rate: avg_frame_rate.to_string(),
        codec_type: codec_type.to_string(),
    }
}

fn chosen(streams: Vec<FfprobeStream>) -> (Option<u32>, Option<u32>) {
    let choice = choose_streams(&FfprobeOutput { streams });
    (choice.video, choice.audio)
}

fn words(command: &Command) -> String {
    format!("{} {}", command.program, command.args.join(" "))
}

#[test]
fn no_streams_no_choice() {
    assert_eq!(chosen(vec![]), (None, None));
    assert_eq!(chosen(vec![stream(0, "subtitle", "24/1")]), (None, None));
}

#[test]
fn the_last_stream_of_each_kind_is_chosen() {
    let streams = vec![
        stream(0, "video", "24/1"),
        stream(1, "audio", "0/0"),
        stream(2, "video", "30/1"),
        stream(3, "audio", "0/0"),
        stream(4, "data", "0/0"),
    ];
    assert_eq!(chosen(streams), (Some(2), Some(3)));
}

#[test]
fn a_cover_is_no_video() {
    assert_eq!(chosen(vec![stream(0, "audio", "0/0"), stream(1, "video", "0/0")]), (None, Some(0)));
    let streams = vec![stream(0, "video", "25/1"), stream(1, "video", "0/0")];
    assert_eq!(chosen(streams), (Some(0), None));
}

#[test]
fn download_command() {
    let command = fetch("http://a/b?c", "d/tmp/1", "d/1");
    assert_eq!(command.program, "yt-dlp");
    assert_eq!(
        command.args,
        vec![
            "-o", "d/tmp/1", "--max-downloads", "1", "-f", "ba*", "-S", "+res:720", "--exec",
            "mv {} d/1", "http://a/b?c"
        ]
    );
}

#[test]
fn probe_and_cover_commands() {
    assert_eq!(
        words(&probe("d/1")),
        "ffprobe -v quiet -print_format json -show_format -show_streams d/1"
    );
    assert_eq!(words(&extract_cover("d/1", "d/1.png")), "ffmpeg -i d/1 d/1.png");
}

const ENCODING: &str = "-pix_fmt yuv420p -movflags faststart -c:v libx264 -preset veryfast -crf 28 \
                        -c:a aac -b:a 280k -f mp4 t/1";

#[test]
fn video_is_scaled_and_encoded() {
    assert_eq!(
        words(&transcode("d/1", "d/1.png", "t/1", Picture::Video)),
        format!("ffmpeg -i d/1 -vf scale=-2:720:flags=lanczos {ENCODING}")
    );
}

#[test]
fn a_cover_is_looped_over_the_sound() {
    assert_eq!(
        words(&transcode("d/1", "d/1.png", "t/1", Picture::Cover)),
        format!(
            "ffmpeg -i d/1 -loop 1 -framerate 10 -i d/1.png -map 1:v:0 -map 0:a:0 \
             -tune stillimage -shortest -shortest_buf_duration 60 \
             -vf scale=-2:720:flags=lanczos {ENCODING}"
        )
    );
}

#[test]
fn sound_without_a_cover_is_drawn() {
    assert_eq!(
        words(&transcode("d/1", "d/1.png", "t/1", Picture::Scope)),
        format!("ffmpeg -i d/1 -filter_complex [0:a]a3dscope=s=848x480:r=24 {ENCODING}")
    );
}
