use piet_fonts::{
    Analysis, BufferStore, FaceType, FileType, FontError, PietFontCollectionLoader, PietFontFile,
    PietFontFileEnumerator, PietFontFileLoader, PietFontFileStream, LAST_WRITE_TIME,
};

fn file_over(bytes: Vec<u8>) -> PietFontFile {
    let mut loader = PietFontCollectionLoader::new();
    let handle = loader.register(bytes);
    PietFontFile::new(handle)
}

#[test]
fn snapshot_length_follows_registrations() {
    for n in 0..6usize {
        let mut loader = PietFontCollectionLoader::new();
        for i in 0..n {
            loader.register(vec![i as u8; i]);
        }
        assert_eq!(loader.snapshot().len(), n);
        assert_eq!(loader.len(), n);
    }
}

#[test]
fn store_keeps_registered_handles_in_order() {
    let mut store = BufferStore::new();
    let a = store.register(vec![1, 2, 3]);
    let b = store.register(vec![1, 2, 3]);
    let snap = store.snapshot();
    assert_eq!(snap.len(), 2);
    assert_eq!(snap[0].address(), a.address());
    assert_eq!(snap[1].address(), b.address());
    assert_ne!(a.address(), b.address());
    assert_eq!(snap[1].as_slice(), &[1, 2, 3]);
}

#[test]
fn keys_differ_across_loaders() {
    let mut l1 = PietFontCollectionLoader::new();
    let mut l2 = PietFontCollectionLoader::new();
    let f1 = PietFontFile::new(l1.register(vec![1, 2, 3]));
    let f2 = PietFontFile::new(l2.register(vec![1, 2, 3]));
    assert_ne!(f1.reference_key(), f2.reference_key());
    assert_eq!(f1.reference_key().length, f2.reference_key().length);
}

#[test]
fn default_files_have_distinct_keys() {
    let d1 = PietFontFile::default();
    let d2 = PietFontFile::default();
    assert_ne!(d1.reference_key(), d2.reference_key());
    assert_eq!(d1.reference_key().length, 0);
    assert_eq!(d1.loader().open_stream(0, 0).unwrap().file_size(), 0);
}

#[test]
fn enumerator_does_not_see_later_registration() {
    let mut loader = PietFontCollectionLoader::new();
    loader.register(vec![0, 1, 0, 0]);
    let mut e = loader.create_enumerator(&[]);
    loader.register(vec![0x4F, 0x54, 0x54, 0x4F]);
    assert!(e.move_next());
    assert!(!e.move_next());
    assert_eq!(loader.len(), 2);
}

#[test]
fn enumerator_keeps_snapshot_after_replace_all() {
    let mut loader = PietFontCollectionLoader::new();
    loader.register(vec![9, 9]);
    let mut e = loader.create_enumerator(&[1, 2]);
    loader.replace_all(vec![vec![1], vec![2, 2], vec![3, 3, 3]]);
    assert!(e.move_next());
    let f = e.get_current_font_file().unwrap();
    assert_eq!(f.reference_key().length, 2);
    assert!(!e.move_next());
    let snap = loader.snapshot();
    assert_eq!(snap.len(), 3);
    assert_eq!(snap[0].as_slice(), &[1]);
    assert_eq!(snap[2].as_slice(), &[3, 3, 3]);
}

#[test]
fn move_next_true_exactly_n_times() {
    for n in 0..5usize {
        let mut loader = PietFontCollectionLoader::new();
        for _ in 0..n {
            loader.register(vec![0, 1, 0, 0]);
        }
        let mut e = loader.create_enumerator(&[]);
        for _ in 0..n {
            assert!(e.move_next());
            assert!(e.get_current_font_file().is_ok());
        }
        for _ in 0..4 {
            assert!(!e.move_next());
            assert_eq!(e.get_current_font_file().err(), Some(FontError::InvalidState));
        }
    }
}

#[test]
fn current_file_before_move_next_is_invalid_state() {
    let mut loader = PietFontCollectionLoader::new();
    loader.register(vec![1, 2, 3, 4]);
    let e = loader.create_enumerator(&[]);
    assert_eq!(e.get_current_font_file().err(), Some(FontError::InvalidState));
    let d = PietFontFileEnumerator::default();
    assert_eq!(d.get_current_font_file().err(), Some(FontError::InvalidState));
}

#[test]
fn current_file_follows_cursor() {
    let mut loader = PietFontCollectionLoader::new();
    loader.register(vec![1]);
    loader.register(vec![2, 2]);
    let mut e = loader.create_enumerator(&[]);
    assert!(e.move_next());
    assert_eq!(e.get_current_font_file().unwrap().reference_key().length, 1);
    assert!(e.move_next());
    assert_eq!(e.get_current_font_file().unwrap().reference_key().length, 2);
}

#[test]
fn analyze_truetype_version_tag() {
    let a = file_over(vec![0x00, 0x01, 0x00, 0x00, 0x00, 0x0C]).analyze();
    assert_eq!(
        a,
        Analysis {
            supported: true,
            file_type: FileType::TrueType,
            face_type: FaceType::TrueType,
            face_count: 1,
        }
    );
}

#[test]
fn analyze_true_tag() {
    let a = file_over(b"true".to_vec()).analyze();
    assert!(a.supported);
    assert_eq!(a.file_type, FileType::TrueType);
    assert_eq!(a.face_type, FaceType::TrueType);
    assert_eq!(a.face_count, 1);
}

#[test]
fn analyze_cff_tag() {
    let a = file_over(vec![0x4F, 0x54, 0x54, 0x4F, 0x00]).analyze();
    assert_eq!(
        a,
        Analysis { supported: true, file_type: FileType::Cff, face_type: FaceType::Cff, face_count: 1 }
    );
}

#[test]
fn analyze_short_buffer_is_unsupported() {
    let unknown = Analysis {
        supported: false,
        file_type: FileType::Unknown,
        face_type: FaceType::Unknown,
        face_count: 0,
    };
    assert_eq!(file_over(vec![0x00, 0x01]).analyze(), unknown);
    assert_eq!(file_over(vec![]).analyze(), unknown);
    assert_eq!(PietFontFile::default().analyze(), unknown);
}

#[test]
fn analyze_other_tag_is_unsupported() {
    let a = file_over(vec![0xDE, 0xAD, 0xBE, 0xEF]).analyze();
    assert!(!a.supported);
    assert_eq!(a.file_type, FileType::Unknown);
    assert_eq!(a.face_count, 0);
    // the TrueType tag 0x00010000 written little-endian is not a tag
    let b = file_over(vec![0x00, 0x00, 0x01, 0x00]).analyze();
    assert!(!b.supported);
}

#[test]
fn reference_key_is_shared_by_files_over_one_buffer() {
    let mut loader = PietFontCollectionLoader::new();
    let h = loader.register(vec![5; 7]);
    let other = loader.register(vec![5; 7]);
    let f1 = PietFontFile::new(h.share());
    let f2 = PietFontFile::new(h);
    let f3 = PietFontFile::new(other);
    assert_eq!(f1.reference_key(), f2.reference_key());
    assert_ne!(f1.reference_key(), f3.reference_key());
    assert_eq!(f1.reference_key().length, 7);
}

#[test]
fn open_stream_checks_key_length_only() {
    let f = file_over(vec![1, 2, 3, 4, 5]);
    let loader = f.loader();
    assert_eq!(loader.open_stream(0, 4).err(), Some(FontError::InvalidArgument));
    assert_eq!(loader.open_stream(0, 6).err(), Some(FontError::InvalidArgument));
    assert!(loader.open_stream(0, 5).is_ok());
    assert!(loader.open_stream(usize::MAX, 5).is_ok());
    assert!(loader.open_stream(f.reference_key().address, 5).is_ok());
    assert!(PietFontFileLoader::default().open_stream(3, 0).is_ok());
}

#[test]
fn read_fragment_bounds() {
    let bytes = vec![10, 20, 30, 40, 50];
    let s = file_over(bytes.clone()).loader().open_stream(0, 5).unwrap();
    assert_eq!(s.read_fragment(0, 5).unwrap(), &bytes[..]);
    assert_eq!(s.read_fragment(1, 3).unwrap(), &[20, 30, 40]);
    assert_eq!(s.read_fragment(5, 0).unwrap(), &[] as &[u8]);
    assert_eq!(s.read_fragment(1, 5).err(), Some(FontError::OutOfRange));
    assert_eq!(s.read_fragment(6, 0).err(), Some(FontError::OutOfRange));
    assert_eq!(s.read_fragment(u64::MAX, 2).err(), Some(FontError::OutOfRange));
    assert_eq!(s.read_fragment(2, u64::MAX - 1).err(), Some(FontError::OutOfRange));
    assert_eq!(s.read_fragment(u64::MAX, u64::MAX).err(), Some(FontError::OutOfRange));
    let frag = s.read_fragment(0, 2).unwrap();
    s.release_fragment(frag);
    assert_eq!(s.read_fragment(0, 2).unwrap(), &[10, 20]);
}

#[test]
fn file_size_is_registered_length() {
    for len in [0usize, 1, 3, 4, 100] {
        let s = file_over(vec![7; len]).loader().open_stream(1, len as u64).unwrap();
        assert_eq!(s.file_size(), len as u64);
    }
    assert_eq!(PietFontFileStream::default().file_size(), 0);
}

#[test]
fn last_write_time_is_nonzero_constant() {
    let s = PietFontFileStream::default();
    assert_eq!(s.last_write_time(), LAST_WRITE_TIME);
    assert_eq!(s.last_write_time(), 10);
}

#[test]
fn end_to_end_round_trip() {
    let bytes: Vec<u8> = vec![0x00, 0x01, 0x00, 0x00, 0x00, 0x0B, 0x80, 0x00, 0x03, 0x00];
    let mut loader = PietFontCollectionLoader::default();
    loader.register(bytes.clone());
    let mut e = loader.create_enumerator(b"any key");
    assert!(e.move_next());
    let file = e.get_current_font_file().unwrap();
    let file_loader = file.loader();
    let stream = file_loader.open_stream(file.reference_key().address, bytes.len() as u64).unwrap();
    assert_eq!(stream.read_fragment(0, bytes.len() as u64).unwrap(), &bytes[..]);
}
