use rust_gpu_life::artifact::{check_artifact, spirv_words, ArtifactError, SPIRV_MAGIC};

/// The bytes of `words` as the machine stores them.
fn module(words: &[u32]) -> Vec<u8> {
    words.iter().flat_map(|word| word.to_ne_bytes()).collect()
}

/// The bytes of `words` in the other byte order.
fn swapped(words: &[u32]) -> Vec<u8> {
    words.iter().flat_map(|word| word.swap_bytes().to_ne_bytes()).collect()
}

#[test]
fn magic_number_is_that_of_spirv() {
    assert_eq!(SPIRV_MAGIC, 0x0723_0203);
}

#[test]
fn a_module_with_the_magic_number_is_loadable() {
    assert_eq!(check_artifact(&module(&[SPIRV_MAGIC])), Ok(()));
    assert_eq!(check_artifact(&module(&[SPIRV_MAGIC, 0x0001_0500, 7, 0, 9])), Ok(()));
}

#[test]
fn the_magic_number_is_read_in_the_order_of_the_machine() {
    let low_first = [0x03, 0x02, 0x23, 0x07];
    let high_first = [0x07, 0x23, 0x02, 0x03];
    let (native, foreign) = if u32::from_ne_bytes(low_first) == SPIRV_MAGIC {
        (low_first, high_first)
    } else {
        (high_first, low_first)
    };
    assert_eq!(check_artifact(&native), Ok(()));
    assert_eq!(check_artifact(&foreign), Err(ArtifactError::MissingMagic));
    assert_eq!(check_artifact(&swapped(&[SPIRV_MAGIC, 1, 2])), Err(ArtifactError::MissingMagic));
}

#[test]
fn a_length_that_is_no_multiple_of_four_is_misaligned() {
    let whole = module(&[SPIRV_MAGIC, 5]);
    assert_eq!(check_artifact(&whole[..1]), Err(ArtifactError::Misaligned));
    assert_eq!(check_artifact(&whole[..3]), Err(ArtifactError::Misaligned));
    assert_eq!(check_artifact(&whole[..5]), Err(ArtifactError::Misaligned));
    assert_eq!(check_artifact(&whole[..7]), Err(ArtifactError::Misaligned));
    // The length is looked at before the magic number.
    assert_eq!(check_artifact(&[0xff, 0xff, 0xff, 0xff, 0xff]), Err(ArtifactError::Misaligned));
}

#[test]
fn a_module_without_the_magic_number_is_refused() {
    assert_eq!(check_artifact(&[]), Err(ArtifactError::MissingMagic));
    for wrong in [0x0723_0204, 0x0723_0303, 0x0724_0203, 0x0823_0203, 0, u32::MAX] {
        assert_eq!(check_artifact(&module(&[wrong])), Err(ArtifactError::MissingMagic));
        assert_eq!(check_artifact(&module(&[wrong, SPIRV_MAGIC])), Err(ArtifactError::MissingMagic));
    }
}

#[test]
fn words_are_those_that_the_machine_reads() {
    let words = [SPIRV_MAGIC, 0x1234_5678, 0x8000_0001];
    assert_eq!(spirv_words(&module(&words)), Ok(words.to_vec()));
    let bytes = module(&words);
    let read: Vec<u32> = bytes
        .chunks(4)
        .map(|four| u32::from_ne_bytes([four[0], four[1], four[2], four[3]]))
        .collect();
    assert_eq!(spirv_words(&bytes), Ok(read));
}

#[test]
fn words_come_back_whole_from_an_unaligned_buffer() {
    let words = [SPIRV_MAGIC, 1, 2, 3, 0xdead_beef, u32::MAX];
    let mut padded = vec![0u8];
    padded.extend(module(&words));
    for start in 0..2 {
        let bytes = if start == 0 { module(&words) } else { padded.clone() };
        let view = if start == 0 { &bytes[..] } else { &bytes[1..] };
        assert_eq!(spirv_words(view), Ok(words.to_vec()));
    }
}

#[test]
fn an_unloadable_artifact_gives_its_fault_and_no_words() {
    assert_eq!(spirv_words(&[]), Err(ArtifactError::MissingMagic));
    assert_eq!(spirv_words(&[1, 2, 3]), Err(ArtifactError::Misaligned));
    assert_eq!(spirv_words(&[1, 2, 3, 4]), Err(ArtifactError::MissingMagic));
    assert_eq!(spirv_words(&module(&[SPIRV_MAGIC])[..3]), Err(ArtifactError::Misaligned));
    assert_eq!(spirv_words(&swapped(&[SPIRV_MAGIC])), Err(ArtifactError::MissingMagic));
}
