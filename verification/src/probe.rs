//! What the probe says of a downloaded file.
use vstd::prelude::*;

verus! {

/// The part of the probe's report that matters.
#[derive(Debug)]
pub struct FfprobeOutput {
    pub streams: Vec<FfprobeStream>,
}

/// One stream of a media file.
#[derive(Debug)]
pub struct FfprobeStream {
    pub codec_name: String,
    pub index: u32,
    pub avg_frame_rate: String,
    pub codec_type: String,
}

/// The model of a [`FfprobeStream`].
pub struct StreamView {
    pub codec_name: Seq<char>,
    pub index: u32,
    pub avg_frame_rate: Seq<char>,
    pub codec_type: Seq<char>,
}

impl View for FfprobeStream {
    type V = StreamView;

    open spec fn view(&self) -> StreamView {
        StreamView {
            codec_name: self.codec_name@,
            index: self.index,
            avg_frame_rate: self.avg_frame_rate@,
            codec_type: self.codec_type@,
        }
    }
}

impl View for FfprobeOutput {
    type V = Seq<StreamView>;

    open spec fn view(&self) -> Seq<StreamView> {
        self.streams@.map_values(|stream: FfprobeStream| stream@)
    }
}

impl StreamView {
    /// A stream of moving pictures. A cover image is a video stream without a frame rate.
    pub open spec fn is_video(self) -> bool {
        self.codec_type == "video"@ && self.avg_frame_rate != "0/0"@
    }

    pub open spec fn is_audio(self) -> bool {
        self.codec_type == "audio"@
    }
}

/// The index of the last stream that is of the given kind.
pub open spec fn last_index(streams: Seq<StreamView>, kind: spec_fn(StreamView) -> bool) -> Option<
    u32,
>
    decreases streams.len(),
{
    if streams.len() == 0 {
        None
    } else if kind(streams.last()) {
        Some(streams.last().index)
    } else {
        last_index(streams.drop_last(), kind)
    }
}

/// The streams that were found, by their index.
#[derive(Debug, Clone, Copy)]
pub struct StreamChoice {
    pub video: Option<u32>,
    pub audio: Option<u32>,
}

/// The choice that a list of streams calls for: of each kind the last one.
pub open spec fn choice_of(streams: Seq<StreamView>) -> StreamChoice {
    StreamChoice {
        video: last_index(streams, |s: StreamView| s.is_video()),
        audio: last_index(streams, |s: StreamView| s.is_audio()),
    }
}

impl FfprobeStream {
    fn is_video(&self) -> (res: bool)
        ensures
            res == self@.is_video(),
    {
        self.codec_type == "video".to_owned() && !(self.avg_frame_rate == "0/0".to_owned())
    }

    fn is_audio(&self) -> (res: bool)
        ensures
            res == self@.is_audio(),
    {
        self.codec_type == "audio".to_owned()
    }
}

/// Of each kind the last stream in the report.
pub fn choose_streams(report: &FfprobeOutput) -> (choice: StreamChoice)
    ensures
        choice == choice_of(report@),
        choice.video is Some <==> exists|i: int|
            0 <= i < report.streams@.len() && (#[trigger] report.streams@[i]).codec_type@
                == "video"@ && report.streams@[i].avg_frame_rate@ != "0/0"@,
        choice.audio is Some <==> exists|i: int|
            0 <= i < report.streams@.len() && (#[trigger] report.streams@[i]).codec_type@
                == "audio"@,
{
    let mut video: Option<u32> = None;
    let mut audio: Option<u32> = None;
    let mut i: usize = 0;
    assert(report@.take(0).len() == 0);
    while i < report.streams.len()
        invariant
            i <= report.streams@.len(),
            video == choice_of(report@.take(i as int)).video,
            audio == choice_of(report@.take(i as int)).audio,
        decreases report.streams@.len() - i,
    {
        let stream = &report.streams[i];
        proof {
            let next = report@.take(i + 1);
            assert(next.last() == stream@);
            assert(next.drop_last() =~= report@.take(i as int));
        }
        if stream.is_video() {
            video = Some(stream.index);
        }
        if stream.is_audio() {
            audio = Some(stream.index);
        }
        i = i + 1;
    }
    assert(report@.take(i as int) =~= report@);
    proof {
        lemma_choice_follows_the_fields(report@);
        assert forall|k: int| 0 <= k < report.streams@.len() implies report@[k] == (
        #[trigger] report.streams@[k])@ by {}
        assert forall|k: int| 0 <= k < report.streams@.len() implies (#[trigger] report@[k])
            == report.streams@[k]@ by {}
    }
    StreamChoice { video, audio }
}

/// A stream of some kind is found exactly where there is one. So a file is treated as one without
/// moving pictures only where none of its streams holds any.
pub proof fn lemma_no_choice_iff_no_stream(
    streams: Seq<StreamView>,
    kind: spec_fn(StreamView) -> bool,
)
    ensures
        last_index(streams, kind) is None <==> forall|i: int|
            0 <= i < streams.len() ==> !kind(#[trigger] streams[i]),
    decreases streams.len(),
{
    if streams.len() > 0 {
        let rest = streams.drop_last();
        lemma_no_choice_iff_no_stream(rest, kind);
        assert(kind(streams.last()) == kind(streams[streams.len() - 1]));
        if last_index(rest, kind) is None {
            assert forall|i: int| 0 <= i < rest.len() implies !kind(#[trigger] streams[i]) by {
                assert(streams[i] == rest[i]);
            }
        } else {
            let i = choose|i: int| 0 <= i < rest.len() && kind(#[trigger] rest[i]);
            assert(streams[i] == rest[i]);
        }
    }
}

proof fn lemma_last_index_is_the_last(streams: Seq<StreamView>, kind: spec_fn(StreamView) -> bool)
    ensures
        last_index(streams, kind) matches Some(index) ==> exists|i: int|
            {
                &&& 0 <= i < streams.len()
                &&& kind(#[trigger] streams[i])
                &&& streams[i].index == index
                &&& forall|j: int| i < j < streams.len() ==> !kind(#[trigger] streams[j])
            },
    decreases streams.len(),
{
    if streams.len() > 0 {
        let rest = streams.drop_last();
        if kind(streams.last()) {
            let i: int = streams.len() - 1;
            assert(streams[i] == streams.last());
        } else {
            lemma_last_index_is_the_last(rest, kind);
            if let Some(index) = last_index(rest, kind) {
                let i = choose|i: int|
                    {
                        &&& 0 <= i < rest.len()
                        &&& kind(#[trigger] rest[i])
                        &&& rest[i].index == index
                        &&& forall|j: int| i < j < rest.len() ==> !kind(#[trigger] rest[j])
                    };
                assert(streams[i] == rest[i]);
                assert forall|j: int| i < j < streams.len() implies !kind(#[trigger] streams[j]) by {
                    if j < rest.len() {
                        assert(streams[j] == rest[j]);
                    }
                }
            }
        }
    }
}

/// What is chosen, by the fields of the streams. A video is found exactly where some stream calls
/// itself "video" and has a frame rate other than "0/0"; it is the last such stream. The same goes
/// for a stream that calls itself "audio", whatever its frame rate.
pub proof fn lemma_choice_follows_the_fields(streams: Seq<StreamView>)
    ensures
        choice_of(streams).video is Some <==> exists|i: int|
            0 <= i < streams.len() && (#[trigger] streams[i]).codec_type == "video"@
                && streams[i].avg_frame_rate != "0/0"@,
        choice_of(streams).video matches Some(index) ==> exists|i: int|
            {
                &&& 0 <= i < streams.len()
                &&& (#[trigger] streams[i]).codec_type == "video"@
                &&& streams[i].avg_frame_rate != "0/0"@
                &&& streams[i].index == index
                &&& forall|j: int|
                    i < j < streams.len() ==> (#[trigger] streams[j]).codec_type != "video"@
                        || streams[j].avg_frame_rate == "0/0"@
            },
        choice_of(streams).audio is Some <==> exists|i: int|
            0 <= i < streams.len() && (#[trigger] streams[i]).codec_type == "audio"@,
        choice_of(streams).audio matches Some(index) ==> exists|i: int|
            {
                &&& 0 <= i < streams.len()
                &&& (#[trigger] streams[i]).codec_type == "audio"@
                &&& streams[i].index == index
                &&& forall|j: int|
                    i < j < streams.len() ==> (#[trigger] streams[j]).codec_type != "audio"@
            },
{
    let video = |s: StreamView| s.is_video();
    let audio = |s: StreamView| s.is_audio();
    lemma_no_choice_iff_no_stream(streams, video);
    lemma_no_choice_iff_no_stream(streams, audio);
    lemma_last_index_is_the_last(streams, video);
    lemma_last_index_is_the_last(streams, audio);
    assert forall|i: int| 0 <= i < streams.len() implies video(#[trigger] streams[i]) == (
    streams[i].codec_type == "video"@ && streams[i].avg_frame_rate != "0/0"@) by {}
    assert forall|i: int| 0 <= i < streams.len() implies audio(#[trigger] streams[i]) == (
    streams[i].codec_type == "audio"@) by {}
}

/// The model of a report has its streams in their order, field by field.
pub proof fn lemma_model_of_a_report(report: FfprobeOutput)
    ensures
        report@.len() == report.streams@.len(),
        forall|i: int|
            0 <= i < report.streams@.len() ==> {
                &&& (#[trigger] report@[i]).codec_name == report.streams@[i].codec_name@
                &&& report@[i].index == report.streams@[i].index
                &&& report@[i].avg_frame_rate == report.streams@[i].avg_frame_rate@
                &&& report@[i].codec_type == report.streams@[i].codec_type@
            },
{
}

} // verus!
