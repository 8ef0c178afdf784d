use wfm_reader::{WfmError, WfmFile, WfmHeader};

/// Builds a whole container in memory: preamble, trailer records, curve data.
fn create_test_wfm(num_frames: u32, samples_per_frame: u32) -> (Vec<u8>, Vec<u8>) {
    let mut header = vec![0u8; 838];
    header[2..10].copy_from_slice(b":WFM#003");
    header[0x072..0x076].copy_from_slice(&1u32.to_le_bytes());
    header[0x076..0x07a].copy_from_slice(&1u32.to_le_bytes());
    header[0x300..0x304].copy_from_slice(&0u32.to_le_bytes());
    header[0x04e..0x052].copy_from_slice(&1u32.to_le_bytes());
    header[0x048..0x04c].copy_from_slice(&(num_frames - 1).to_le_bytes());
    header[0x0a8..0x0b0].copy_from_slice(&0.001f64.to_le_bytes());
    header[0x0b0..0x0b8].copy_from_slice(&0.0f64.to_le_bytes());
    header[0x1e8..0x1f0].copy_from_slice(&1e-9f64.to_le_bytes());
    header[0x1f0..0x1f8].copy_from_slice(&(-10e-6f64).to_le_bytes());
    header[0x336..0x33a].copy_from_slice(&0u32.to_le_bytes());
    header[0x33a..0x33e].copy_from_slice(&samples_per_frame.to_le_bytes());
    header[0x33e..0x342].copy_from_slice(&samples_per_frame.to_le_bytes());

    let mut body = vec![0u8; 54 * (num_frames - 1) as usize];
    for frame in 0..num_frames {
        for sample in 0..samples_per_frame {
            let phase = 2.0 * std::f64::consts::PI * sample as f64 / samples_per_frame as f64;
            let amplitude = 100.0 * (1.0 + frame as f64 * 0.1);
            let value = (amplitude * phase.sin()) as i8;
            body.push(value as u8);
        }
    }
    (header, body)
}

#[test]
fn test_load_and_process_wfm() {
    let (header, body) = create_test_wfm(10, 2500);

    let mut wfm = WfmFile::new();
    wfm.load_file("test_waveform.wfm".to_string(), &header, &body).expect("Failed to load WFM file");

    assert_eq!(wfm.file_header.num_fastframes, 10);
    assert_eq!(wfm.file_header.full_record_length, 2500);
    assert_eq!(f64::from_bits(wfm.file_header.voltage_scale_bits), 0.001);

    assert_eq!(wfm.file_content.raw_frames.len(), 25000);

    for i in 0..10 {
        let frame = wfm.get_frame(i).expect("Failed to get frame");
        assert_eq!(frame.len(), 2500);
    }
}

#[test]
fn scenario_synthetic_five_frames() {
    let (mut header, mut body) = create_test_wfm(5, 500);
    header[0x1f0..0x1f8].copy_from_slice(&(-1e-5f64).to_le_bytes());
    // first sample of frame 0 set to a negative byte
    body[54 * 4] = 0xF6;

    let mut wfm = WfmFile::new();
    wfm.load_file("a.wfm".to_string(), &header, &body).unwrap();
    assert_eq!(wfm.file_header.num_fastframes, 5);
    assert_eq!(wfm.file_header.full_record_length, 500);
    assert_eq!(wfm.file_header.curve_byte_offset, 838 + 4 * 54);
    assert_eq!(f64::from_bits(wfm.file_header.acq_time_start_bits), -1e-5);
    assert_eq!(f64::from_bits(wfm.file_header.acq_time_scale_bits), 1e-9);
    let frame0 = wfm.get_frame(0).unwrap();
    assert_eq!(frame0[0], -10);
    let scaled = frame0[0] as f64 * f64::from_bits(wfm.file_header.voltage_scale_bits);
    assert!((scaled - (-0.01)).abs() < 1e-15);
}

#[test]
fn scenario_truncated_body() {
    let (header, body) = create_test_wfm(10, 2500);
    let short = &body[..body.len() - 1];
    let mut wfm = WfmFile::new();
    let result = wfm.load_file("b.wfm".to_string(), &header, short);
    assert!(matches!(result, Err(WfmError::ParseError(_))));
    assert_eq!(wfm.file_header.num_fastframes, 0);
    assert!(wfm.file_content.raw_frames.is_empty());
    assert!(wfm.file_path.is_empty());

    let result = wfm.load_file("b.wfm".to_string(), &header, &body[..100]);
    assert!(matches!(result, Err(WfmError::ParseError(_))));
}

#[test]
fn scenario_wrong_version_tag() {
    let (mut header, _) = create_test_wfm(1, 10);
    header[2..10].copy_from_slice(&[0xFF, b'W', b'F', b'M', b'#', b'0', b'0', b'2']);
    match WfmHeader::parse_header(&header) {
        Err(WfmError::UnsupportedVersion(found)) => {
            assert_eq!(found, vec![0xFF, b'W', b'F', b'M', b'#', b'0', b'0', b'2'])
        }
        other => panic!("unexpected result {:?}", other),
    }
}
