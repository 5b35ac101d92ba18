use audiowire::config::{ChannelLayout, Config, SampleFormat};
use audiowire::errors::Error;
use audiowire::frame::{
    bytes_to_samples, encode_frame, frame_length, playback_admits, record_packet,
    samples_to_bytes, FrameError, PlaybackReader, PlaybackStep,
};
use audiowire::negotiate::{client_plan, direction_enabled, server_plan, SessionPlan};
use audiowire::reassembly::ReassemblyQueue;
use audiowire::retry::{Retry, RetryDecision, MAX_RETRY};
use audiowire::session::{record_step, RecordStep, Session};
use audiowire::stream::{device_enabled, BaseStream, StreamFlags, StreamType};

fn stereo_s16() -> Config {
    Config::standard()
}

#[test]
fn config_sizes_of_standard() {
    let c = stereo_s16();
    assert_eq!(c.frame_size(), 4);
    assert_eq!(c.buffer_size(), 3840);
    assert_eq!(c.max_buffer_size(), 57600);
    assert_eq!(c.buffer_duration(), 20);
    assert_eq!(c.max_buffer_duration(), 300);
}

#[test]
fn config_sizes_of_float_mono() {
    let c = Config {
        channels: 1,
        sample_rate: 44100,
        sample_format: SampleFormat::F32,
        buffer_frames: 441,
        max_buffer_frames: 4410,
    };
    assert_eq!(SampleFormat::F32.size(), 4);
    assert_eq!(SampleFormat::S16.size(), 2);
    assert_eq!(c.frame_size(), 4);
    assert_eq!(c.buffer_size(), 1764);
    assert_eq!(c.buffer_duration(), 10);
    assert_eq!(c.max_buffer_duration(), 100);
}

#[test]
fn config_zero_rate_has_no_duration() {
    let mut c = stereo_s16();
    c.sample_rate = 0;
    assert_eq!(c.buffer_duration(), 0);
}

#[test]
fn channel_layouts() {
    assert_eq!(ChannelLayout::from_count(1), Some(ChannelLayout::Mono));
    assert_eq!(ChannelLayout::from_count(2), Some(ChannelLayout::Stereo));
    assert_eq!(ChannelLayout::from_count(0), None);
    assert_eq!(ChannelLayout::from_count(6), None);
}

#[test]
fn error_keeps_code_and_message() {
    let e = Error::new(-3, Some("device busy".to_string()));
    assert_eq!(e.code(), -3);
    assert_eq!(e.message(), Some("device busy"));
    let e = Error::new(7, None);
    assert_eq!(e.code(), 7);
    assert_eq!(e.message(), None);
}

#[test]
fn stream_type_bytes() {
    assert_eq!(StreamType::new(false, false).to_bytes(), [0]);
    assert_eq!(StreamType::new(true, false).to_bytes(), [1]);
    assert_eq!(StreamType::new(false, true).to_bytes(), [2]);
    assert_eq!(StreamType::new(true, true).to_bytes(), [3]);
    let t = StreamType::new(true, false);
    assert!(t.is_source());
    assert!(!t.is_sink());
}

#[test]
fn stream_type_ignores_reserved_bits() {
    let t = StreamType::from([0b1111_1010u8]);
    assert!(!t.is_source());
    assert!(t.is_sink());
    let t = StreamType::from_byte(0b0000_0101);
    assert!(t.is_source());
    assert!(!t.is_sink());
}

#[test]
fn stream_flags_codec_bit() {
    let f = StreamFlags::new(StreamType::new(true, true), true);
    assert_eq!(f.to_bytes(), [7]);
    assert!(f.opus_enabled());
    assert!(f.stream_type().is_source());
    assert!(f.stream_type().is_sink());
    let f = StreamFlags::new(StreamType::new(false, true), false);
    assert_eq!(f.to_bytes(), [2]);
    assert!(!f.opus_enabled());
    let f = StreamFlags::from([4u8]);
    assert!(f.opus_enabled());
    assert!(!f.stream_type().is_source());
    assert_eq!(StreamFlags::default().to_bytes(), [0]);
}

#[test]
fn null_device_name_disables_direction() {
    assert!(device_enabled(None));
    assert!(!device_enabled(Some("null")));
    assert!(device_enabled(Some("nul")));
    assert!(device_enabled(Some("nulls")));
    assert!(device_enabled(Some("Null")));
    assert!(device_enabled(Some("hw:0")));
}

#[test]
fn stop_twice_stops_device_once() {
    let mut s = BaseStream::new(Some("speakers".to_string()));
    assert_eq!(s.device_name(), Some("speakers"));
    let mut calls = 0;
    assert!(s
        .stop(|| {
            calls += 1;
            Ok(())
        })
        .is_ok());
    assert!(!s.is_running());
    assert!(s
        .stop(|| {
            calls += 1;
            Ok(())
        })
        .is_ok());
    assert_eq!(calls, 1);
    assert_eq!(s.device_name(), Some("speakers"));
}

#[test]
fn failed_stop_leaves_stream_running() {
    let mut s = BaseStream::new(None);
    let r = s.stop(|| Err(Error::new(5, None)));
    assert_eq!(r.err().map(|e| e.code()), Some(5));
    assert!(s.is_running());
    let mut calls = 0;
    assert!(s
        .stop(|| {
            calls += 1;
            Ok(())
        })
        .is_ok());
    assert_eq!(calls, 1);
    assert!(!s.is_running());
    assert_eq!(s.device_name(), None);
}

#[test]
fn negotiation_is_symmetric() {
    for bits in 0u8..8 {
        let (a_src, a_sink, codec) = (bits & 1 != 0, bits & 2 != 0, bits & 4 != 0);
        for other in 0u8..4 {
            let (b_src, b_sink) = (other & 1 != 0, other & 2 != 0);
            let a = StreamType::new(a_src, a_sink);
            let b = StreamType::new(b_src, b_sink);
            let flags = StreamFlags::new(a, codec);
            let client = client_plan(flags, b);
            let server = server_plan(b, flags);
            assert_eq!(direction_enabled(a, b), a_src && b_sink);
            assert_eq!(client.record, a_src && b_sink);
            assert_eq!(client.playback, b_src && a_sink);
            assert_eq!(client.record, server.playback);
            assert_eq!(client.playback, server.record);
            assert_eq!(client.codec, codec);
            assert_eq!(server.codec, codec);
            assert_eq!(client.pump_count(), server.pump_count());
        }
    }
}

#[test]
fn silent_sides_run_no_pump() {
    let plan = client_plan(
        StreamFlags::new(StreamType::new(false, true), false),
        StreamType::new(false, true),
    );
    assert_eq!(plan, SessionPlan { record: false, playback: false, codec: false });
    assert_eq!(plan.pump_count(), 0);
    let session = Session::new(&plan);
    assert!(session.is_stopped());
}

#[test]
fn frame_of_short_payload() {
    assert_eq!(encode_frame(&[1, 2, 3]), Ok(vec![0, 3, 1, 2, 3]));
    assert_eq!(encode_frame(&[]), Ok(vec![0, 0]));
    let long = vec![9u8; 300];
    let f = encode_frame(&long).unwrap();
    assert_eq!(f.len(), 302);
    assert_eq!(&f[..2], &[1, 44]);
    assert_eq!(frame_length([1, 44]), 300);
    assert_eq!(frame_length([255, 255]), 65535);
}

#[test]
fn frame_limits() {
    let max = vec![0u8; 65535];
    let f = encode_frame(&max).unwrap();
    assert_eq!(&f[..2], &[255, 255]);
    assert_eq!(f.len(), 65537);
    let over = vec![0u8; 65536];
    assert_eq!(encode_frame(&over), Err(FrameError::PayloadTooLarge));
    assert_eq!(record_packet(true, &over), Err(FrameError::PayloadTooLarge));
    assert_eq!(record_packet(false, &over).map(|v| v.len()), Ok(65536));
}

fn read_back_frame(payload: &[u8]) -> Vec<u8> {
    let wire = record_packet(true, payload).unwrap();
    let mut reader = PlaybackReader::new(true, 3840);
    let head = match reader.next_step(false) {
        PlaybackStep::Read(n) => n,
        PlaybackStep::Stop => panic!("reader stopped"),
    };
    assert_eq!(head, 2);
    assert_eq!(reader.accept(wire[..head].to_vec()), None);
    let body = reader.wanted();
    assert_eq!(body, payload.len());
    let out = reader.accept(wire[head..head + body].to_vec()).unwrap();
    assert_eq!(reader.wanted(), 2);
    out
}

#[test]
fn frame_round_trip_through_reader() {
    let payload: Vec<u8> = (0..1000u32).map(|i| (i * 7 % 256) as u8).collect();
    assert_eq!(read_back_frame(&payload), payload);
    assert_eq!(read_back_frame(&[]), Vec::<u8>::new());
    let max: Vec<u8> = (0..65535u32).map(|i| (i % 251) as u8).collect();
    assert_eq!(read_back_frame(&max), max);
}

#[test]
fn raw_round_trip() {
    let c = stereo_s16();
    let chunk: Vec<u8> = (0..c.buffer_size()).map(|i| (i % 256) as u8).collect();
    let wire = record_packet(false, &chunk).unwrap();
    assert_eq!(wire, chunk);
    let mut reader = PlaybackReader::new(false, c.buffer_size());
    assert_eq!(reader.next_step(false), PlaybackStep::Read(3840));
    assert_eq!(reader.accept(wire.clone()), Some(chunk.clone()));
    assert_eq!(reader.wanted(), 3840);
    let samples = bytes_to_samples(&chunk);
    assert_eq!(samples.len(), 1920);
    assert_eq!(samples_to_bytes(&samples), chunk);
}

#[test]
fn sample_views() {
    assert_eq!(samples_to_bytes(&[1, -1, 256, i16::MIN]), vec![1, 0, 255, 255, 0, 1, 0, 128]);
    assert_eq!(bytes_to_samples(&[1, 0, 255, 255, 0, 1, 0, 128]), vec![1, -1, 256, i16::MIN]);
    assert_eq!(bytes_to_samples(&[1, 0, 7]), vec![1]);
    assert_eq!(bytes_to_samples(&[]), Vec::<i16>::new());
}

#[test]
fn playback_drops_what_does_not_fit() {
    assert!(playback_admits(100, 40, 60));
    assert!(!playback_admits(100, 40, 61));
    assert!(playback_admits(100, 100, 0));
    assert!(!playback_admits(100, 120, 0));
}

fn feed_and_read(stream: &[u8], splits: &[usize], reads: &[usize]) -> Vec<u8> {
    let mut q = ReassemblyQueue::new();
    let mut at = 0;
    for &s in splits {
        q.push(stream[at..at + s].to_vec());
        at += s;
    }
    q.push(stream[at..].to_vec());
    let mut out = Vec::new();
    for &r in reads {
        out.extend(q.read_exact(r).unwrap());
    }
    assert!(!q.has_at_least(1));
    out
}

#[test]
fn reassembly_ignores_datagram_boundaries() {
    let stream: Vec<u8> = (0..100u8).collect();
    let reads = [10, 1, 39, 0, 50];
    for splits in [
        vec![],
        vec![100],
        vec![1; 99],
        vec![7, 0, 13, 30, 45],
        vec![50, 25, 24],
        vec![0, 0, 3],
    ] {
        assert_eq!(feed_and_read(&stream, &splits, &reads), stream);
    }
    assert_eq!(feed_and_read(&stream, &[33, 33], &[100]), stream);
    assert_eq!(feed_and_read(&stream, &[10; 9], &[1; 100]), stream);
}

#[test]
fn reassembly_waits_for_enough_bytes() {
    let mut q = ReassemblyQueue::new();
    assert_eq!(q.read_exact(0), Some(vec![]));
    assert_eq!(q.read_exact(1), None);
    q.push(vec![1, 2, 3]);
    assert_eq!(q.read_exact(5), None);
    assert!(q.has_at_least(3));
    assert!(!q.has_at_least(4));
    q.push(vec![4, 5]);
    assert_eq!(q.read_exact(4), Some(vec![1, 2, 3, 4]));
    q.push(vec![6, 7, 8]);
    assert_eq!(q.read_exact(2), Some(vec![5, 6]));
    assert_eq!(q.read_exact(3), None);
    assert_eq!(q.read_exact(2), Some(vec![7, 8]));
}

#[test]
fn record_pump_steps() {
    assert_eq!(record_step(false, 3840, 3840), RecordStep::Pull);
    assert_eq!(record_step(false, 5000, 3840), RecordStep::Pull);
    assert_eq!(record_step(false, 3839, 3840), RecordStep::Wait);
    assert_eq!(record_step(true, 5000, 3840), RecordStep::Stop);
    assert_eq!(record_step(true, 0, 3840), RecordStep::Stop);
}

#[test]
fn termination_reaches_every_pump() {
    let plan = SessionPlan { record: true, playback: true, codec: false };
    let mut session = Session::new(&plan);
    let reader = PlaybackReader::new(false, 3840);
    assert!(!session.is_terminated());
    assert_eq!(reader.next_step(session.is_terminated()), PlaybackStep::Read(3840));
    session.pump_finished();
    assert!(session.is_terminated());
    assert!(!session.is_stopped());
    assert_eq!(record_step(session.is_terminated(), 10000, 3840), RecordStep::Stop);
    assert_eq!(reader.next_step(session.is_terminated()), PlaybackStep::Stop);
    session.pump_finished();
    assert!(session.is_stopped());
}

#[test]
fn interrupt_terminates_session() {
    let plan = SessionPlan { record: true, playback: false, codec: true };
    let mut session = Session::new(&plan);
    session.terminate();
    assert!(session.is_terminated());
    assert!(!session.is_stopped());
    session.pump_finished();
    assert!(session.is_stopped());
}

#[test]
fn retry_gives_up_after_five_retries() {
    let mut retry = Retry::new();
    let mut attempts = 0u32;
    let mut delays = Vec::new();
    let last = loop {
        attempts += 1;
        let err = format!("refused #{}", attempts);
        match retry.on_failure(err) {
            RetryDecision::GiveUp(e) => break e,
            RetryDecision::RetryAfter(ms) => delays.push(ms),
        }
    };
    assert_eq!(attempts, 6);
    assert_eq!(delays, vec![3000, 6000, 9000, 12000, 15000]);
    assert_eq!(retry.retries(), MAX_RETRY);
    assert_eq!(last, "refused #6");
}

#[test]
fn end_to_end_record_to_playback() {
    let c = stereo_s16();
    let client_flags = StreamFlags::new(StreamType::new(true, false), false);
    let server_type = StreamType::new(false, true);
    let client = client_plan(client_flags, server_type);
    let server = server_plan(server_type, StreamFlags::from(client_flags.to_bytes()));
    assert_eq!(client, SessionPlan { record: true, playback: false, codec: false });
    assert_eq!(server, SessionPlan { record: false, playback: true, codec: false });
    assert_eq!(client.pump_count() + server.pump_count(), 2);

    let chunk: Vec<u8> = (0..c.buffer_size()).map(|i| (i * 31 % 256) as u8).collect();
    assert_eq!(record_step(false, chunk.len(), c.buffer_size()), RecordStep::Pull);
    let packet = record_packet(client.codec, &chunk).unwrap();

    let mut wire = ReassemblyQueue::new();
    for part in packet.chunks(1000) {
        wire.push(part.to_vec());
    }
    let mut reader = PlaybackReader::new(server.codec, c.buffer_size());
    let n = match reader.next_step(false) {
        PlaybackStep::Read(n) => n,
        PlaybackStep::Stop => panic!("reader stopped"),
    };
    let bytes = wire.read_exact(n).unwrap();
    let to_device = reader.accept(bytes).unwrap();
    assert_eq!(to_device, chunk);
}
