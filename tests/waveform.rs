use da728x::errors::Error;
use da728x::waveform::{
    FrameBuilder, Gain, PwlPoint, SequenceBuilder, SnippetBuilder, Timebase,
    WaveformMemoryBuilder,
};

#[test]
fn test_pwl_point_ramp() {
    let point = PwlPoint::ramp(1, 15).unwrap();
    assert!(point.is_ramp());
    assert_eq!(point.timebases(), 1);
    assert_eq!(point.amplitude(), 15);
    assert_eq!(point.as_byte(), 0x8F);
}

#[test]
fn test_pwl_point_step() {
    let point = PwlPoint::step(4, 8).unwrap();
    assert!(!point.is_ramp());
    assert_eq!(point.timebases(), 4);
    assert_eq!(point.amplitude(), 8);
    assert_eq!(point.as_byte(), 0x38);
}

#[test]
fn test_pwl_point_max_timebases() {
    let point = PwlPoint::ramp(8, 0).unwrap();
    assert_eq!(point.timebases(), 8);
    assert_eq!(point.as_byte(), 0xF0);
}

#[test]
fn test_pwl_point_invalid_timebase() {
    assert!(matches!(PwlPoint::ramp(0, 0), Err(Error::InvalidTimebase)));
    assert!(matches!(PwlPoint::ramp(9, 0), Err(Error::InvalidTimebase)));
}

#[test]
fn test_pwl_point_invalid_amplitude() {
    assert!(matches!(PwlPoint::ramp(1, 16), Err(Error::InvalidAmplitude)));
}

#[test]
fn test_snippet_builder() {
    let snippet = SnippetBuilder::new()
        .ramp(1, 15)
        .unwrap()
        .step(2, 15)
        .unwrap()
        .ramp(1, 0)
        .unwrap()
        .build()
        .unwrap();

    assert_eq!(snippet.byte_len(), 3);
    assert_eq!(snippet.points().len(), 3);
}

#[test]
fn test_snippet_empty() {
    assert!(matches!(SnippetBuilder::new().build(), Err(Error::EmptySnippet)));
}

#[test]
fn test_snippet_encode() {
    let snippet = SnippetBuilder::new()
        .ramp(1, 15)
        .unwrap()
        .ramp(1, 0)
        .unwrap()
        .build()
        .unwrap();

    let mut buffer = [0u8; 4];
    let len = snippet.encode_into(&mut buffer);
    assert_eq!(len, 2);
    assert_eq!(buffer[0], 0x8F);
    assert_eq!(buffer[1], 0x80);
}

#[test]
fn test_frame_single_byte() {
    let frame = FrameBuilder::new(1).unwrap().build().unwrap();
    assert_eq!(frame.byte_len(), 1);
    assert_eq!(frame.as_bytes()[0], 0x01);
}

#[test]
fn test_frame_snippet_id_high() {
    let frame = FrameBuilder::new(8).unwrap().build().unwrap();
    assert_eq!(frame.byte_len(), 2);
    assert_eq!(frame.as_bytes()[0], 0x00);
    assert_eq!(frame.as_bytes()[1], 0x81);
}

#[test]
fn test_frame_with_loop() {
    let frame = FrameBuilder::new(1)
        .unwrap()
        .loop_count(5)
        .unwrap()
        .build()
        .unwrap();
    assert_eq!(frame.byte_len(), 2);
    assert_eq!(frame.as_bytes()[0], 0x01);
    assert_eq!(frame.as_bytes()[1], 0xA8);
}

#[test]
fn test_frame_with_frequency() {
    let frame = FrameBuilder::new(1)
        .unwrap()
        .frequency_hz(300)
        .unwrap()
        .build()
        .unwrap();
    assert_eq!(frame.byte_len(), 3);
    assert_eq!(frame.as_bytes()[0], 0x01);
    assert_eq!(frame.as_bytes()[1], 0x86);
    assert_eq!(frame.as_bytes()[2], 0x2C);
}

#[test]
fn test_frame_invalid_snippet_id() {
    assert!(matches!(FrameBuilder::new(0), Err(Error::InvalidSnippetId)));
    assert!(matches!(FrameBuilder::new(16), Err(Error::InvalidSnippetId)));
}

#[test]
fn test_frame_invalid_loop() {
    assert!(matches!(
        FrameBuilder::new(1).unwrap().loop_count(16),
        Err(Error::InvalidLoopCount)
    ));
}

#[test]
fn test_frame_invalid_frequency() {
    assert!(matches!(
        FrameBuilder::new(1).unwrap().frequency_hz(512),
        Err(Error::InvalidFrequency)
    ));
}

#[test]
fn test_frame_all_options() {
    let frame = FrameBuilder::new(15)
        .unwrap()
        .gain(Gain::Half)
        .timebase(Timebase::Ms43_52)
        .loop_count(10)
        .unwrap()
        .frequency_hz(256)
        .unwrap()
        .build()
        .unwrap();

    assert_eq!(frame.byte_len(), 3);
    assert_eq!(frame.as_bytes()[0], 0x37);
    assert_eq!(frame.as_bytes()[1], 0xD7);
    assert_eq!(frame.as_bytes()[2], 0x00);
}

#[test]
fn test_sequence_single_frame() {
    let frame = FrameBuilder::new(1).unwrap().build().unwrap();
    let sequence = SequenceBuilder::new()
        .add_frame(frame)
        .unwrap()
        .build()
        .unwrap();

    assert_eq!(sequence.byte_len(), 1);
}

#[test]
fn test_sequence_multiple_frames() {
    let frame1 = FrameBuilder::new(1).unwrap().build().unwrap();
    let frame2 = FrameBuilder::new(2)
        .unwrap()
        .loop_count(3)
        .unwrap()
        .build()
        .unwrap();

    let sequence = SequenceBuilder::new()
        .add_frame(frame1)
        .unwrap()
        .add_frame(frame2)
        .unwrap()
        .build()
        .unwrap();

    assert_eq!(sequence.byte_len(), 3);
}

#[test]
fn test_sequence_empty() {
    assert!(matches!(SequenceBuilder::new().build(), Err(Error::EmptySequence)));
}

#[test]
fn test_sequence_encode() {
    let frame = FrameBuilder::new(1).unwrap().build().unwrap();
    let sequence = SequenceBuilder::new()
        .add_frame(frame)
        .unwrap()
        .build()
        .unwrap();

    let mut buffer = [0u8; 4];
    let len = sequence.encode_into(&mut buffer);
    assert_eq!(len, 1);
    assert_eq!(buffer[0], 0x01);
}

#[test]
fn test_memory_basic() {
    let snippet = SnippetBuilder::new()
        .ramp(1, 15)
        .unwrap()
        .ramp(1, 0)
        .unwrap()
        .build()
        .unwrap();

    let frame = FrameBuilder::new(1).unwrap().build().unwrap();
    let sequence = SequenceBuilder::new()
        .add_frame(frame)
        .unwrap()
        .build()
        .unwrap();

    let memory = WaveformMemoryBuilder::new(true)
        .add_snippet(snippet)
        .unwrap()
        .add_sequence(sequence)
        .unwrap()
        .build()
        .unwrap();

    assert_eq!(memory.len(), 7);
    assert_eq!(memory.num_snippets(), 1);
    assert_eq!(memory.num_sequences(), 1);

    let bytes = memory.as_bytes();
    assert_eq!(bytes[0], 1);
    assert_eq!(bytes[1], 1);
    assert_eq!(bytes[2], 5);
    assert_eq!(bytes[3], 6);
    assert_eq!(bytes[4], 0x8F);
    assert_eq!(bytes[5], 0x80);
    assert_eq!(bytes[6], 0x01);
}

#[test]
fn test_memory_multiple_snippets() {
    let snippet1 = SnippetBuilder::new().ramp(1, 15).unwrap().build().unwrap();

    let snippet2 = SnippetBuilder::new()
        .step(2, 8)
        .unwrap()
        .ramp(1, 0)
        .unwrap()
        .build()
        .unwrap();

    let frame1 = FrameBuilder::new(1).unwrap().build().unwrap();
    let frame2 = FrameBuilder::new(2).unwrap().build().unwrap();

    let sequence = SequenceBuilder::new()
        .add_frame(frame1)
        .unwrap()
        .add_frame(frame2)
        .unwrap()
        .build()
        .unwrap();

    let memory = WaveformMemoryBuilder::new(true)
        .add_snippet(snippet1)
        .unwrap()
        .add_snippet(snippet2)
        .unwrap()
        .add_sequence(sequence)
        .unwrap()
        .build()
        .unwrap();

    assert_eq!(memory.num_snippets(), 2);
    assert_eq!(memory.num_sequences(), 1);

    let bytes = memory.as_bytes();
    assert_eq!(bytes[0], 2);
    assert_eq!(bytes[1], 1);
    assert_eq!(bytes[2], 5);
    assert_eq!(bytes[3], 7);
    assert_eq!(bytes[4], 9);
}

#[test]
fn test_memory_too_many_snippets() {
    let mut builder = WaveformMemoryBuilder::new(true);

    for _ in 0..15 {
        let snippet = SnippetBuilder::new().ramp(1, 15).unwrap().build().unwrap();
        builder = builder.add_snippet(snippet).unwrap();
    }

    let snippet = SnippetBuilder::new().ramp(1, 15).unwrap().build().unwrap();

    assert!(matches!(builder.add_snippet(snippet), Err(Error::TooManySnippets)));
}

#[test]
fn test_memory_no_snippets() {
    let frame = FrameBuilder::new(1).unwrap().build().unwrap();
    let sequence = SequenceBuilder::new()
        .add_frame(frame)
        .unwrap()
        .build()
        .unwrap();

    let result = WaveformMemoryBuilder::new(true)
        .add_sequence(sequence)
        .unwrap()
        .build();

    assert!(matches!(result, Err(Error::EmptySnippet)));
}

#[test]
fn test_memory_no_sequences() {
    let snippet = SnippetBuilder::new().ramp(1, 15).unwrap().build().unwrap();

    let result = WaveformMemoryBuilder::new(true)
        .add_snippet(snippet)
        .unwrap()
        .build();

    assert!(matches!(result, Err(Error::EmptySequence)));
}

#[test]
fn test_next_ids() {
    let builder = WaveformMemoryBuilder::new(true);
    assert_eq!(builder.next_snippet_id(), 1);
    assert_eq!(builder.next_sequence_id(), 0);

    let snippet = SnippetBuilder::new().ramp(1, 15).unwrap().build().unwrap();

    let builder = builder.add_snippet(snippet).unwrap();
    assert_eq!(builder.next_snippet_id(), 2);
    assert_eq!(builder.next_sequence_id(), 0);
}
