use sociacli::ptt::{mix, pick_config, pick_device, Framer, FRAME_SAMPLES};

fn names() -> Vec<String> {
    vec!["Built-in Mic".to_string(), "USB Headset".to_string(), "usb cam".to_string()]
}

#[test]
fn microphones_are_picked_by_a_piece_of_their_name() {
    assert_eq!(pick_device(None, &names()), None);
    assert_eq!(pick_device(Some("usb"), &names()), Some(1));
    assert_eq!(pick_device(Some("CAM"), &names()), Some(2));
    assert_eq!(pick_device(Some("none"), &names()), None);
}

#[test]
fn rates_have_to_fit() {
    assert_eq!(pick_config(&vec![(8_000, 44_100), (48_000, 48_000), (8_000, 96_000)]), Some(1));
    assert_eq!(pick_config(&vec![(8_000, 44_100)]), None);
}

#[test]
fn channels_are_averaged_towards_zero() {
    assert_eq!(mix::<i16>(&vec![3, 4, -3, -4, 7], 2), vec![3, -3]);
    assert_eq!(mix::<i16>(&vec![i16::MIN, i16::MIN], 2), vec![i16::MIN]);
    assert_eq!(mix::<i16>(&vec![5, -6], 1), vec![5, -6]);
    assert_eq!(mix::<u16>(&vec![0, 65535, 32768, 32768], 2), vec![0, 0]);
    assert_eq!(mix::<u16>(&vec![0], 1), vec![-32768]);
    assert_eq!(mix::<i8>(&vec![-128, 127, -1, 0], 2), vec![0, 0]);
    assert_eq!(mix::<i8>(&vec![-128], 1), vec![-32768]);
    assert_eq!(mix::<u8>(&vec![255, 0], 1), vec![32512, -32768]);
    assert_eq!(mix::<i32>(&vec![i32::MAX, i32::MIN, -1], 1), vec![32767, -32768, -1]);
    assert_eq!(mix::<i32>(&vec![65536, 65536], 2), vec![1]);
    assert_eq!(mix::<i16>(&vec![1, 2], 3), Vec::<i16>::new());
}

#[test]
fn frames_are_full_and_nothing_is_lost() {
    let mut f = Framer::new();
    let all: Vec<i16> = (0..2500).map(|i| i as i16).collect();
    let mut out: Vec<i16> = Vec::new();
    let mut frames = 0;
    for chunk in all.chunks(700) {
        for frame in f.push(&chunk.to_vec()) {
            assert_eq!(frame.len(), FRAME_SAMPLES);
            out.extend(frame);
            frames += 1;
        }
    }
    assert_eq!(frames, 2);
    assert_eq!(out, all[..1920].to_vec());
    let rest = f.push(&vec![0; 380]);
    assert_eq!(rest.len(), 1);
    assert_eq!(rest[0][..580], all[1920..]);
    assert_eq!(f.push(&vec![1; 2000]).len(), 2);
}
