use nft_upload::metadata::{
    check_read_back, create_metadata_files, metadata_file_name, token_record, AssetFile,
    MetadataError, ReadBackError,
};

fn asset(name: &str) -> AssetFile {
    AssetFile { file_name: name.to_string(), size: 10 }
}

#[test]
fn batch_without_suffix_names_files_by_token() {
    let images = vec![asset("1.png"), asset("2.png")];
    let files = create_metadata_files(&images, "QmImages", false, false, "").unwrap();
    assert_eq!(files.len(), 2);
    assert_eq!(files[0].file_name, "1");
    assert_eq!(files[1].file_name, "2");
    assert_eq!(files[0].metadata.name, "MetaCore #1");
    assert_eq!(files[1].metadata.name, "MetaCore #2");
    assert_eq!(files[0].metadata.image, "ipfs://QmImages/1.png");
    assert_eq!(files[1].metadata.image, "ipfs://QmImages/2.png");
    assert_eq!(files[0].metadata.description, "A unique member of the MetaCore collection.");
    assert_eq!(files[0].metadata.attributes.len(), 1);
    assert_eq!(files[0].metadata.attributes[0].trait_type, "ID");
    assert_eq!(files[0].metadata.attributes[0].value, 1);
    assert_eq!(files[1].metadata.attributes[0].value, 2);
}

#[test]
fn generation_yields_one_file_per_image() {
    let mut images = Vec::new();
    for i in 0..25u64 {
        images.push(asset(&format!("{}.png", i * 3)));
    }
    let files = create_metadata_files(&images, "cid", true, false, ".yaml").unwrap();
    assert_eq!(files.len(), images.len());
    for (i, f) in files.iter().enumerate() {
        assert_eq!(f.file_name, format!("{}.yaml", i * 3));
        assert_eq!(f.metadata.attributes[0].value, (i * 3) as u64);
    }
    let mut names: Vec<String> = files.iter().map(|f| f.file_name.clone()).collect();
    names.sort();
    names.dedup();
    assert_eq!(names.len(), images.len());
}

#[test]
fn empty_list_generates_nothing() {
    let images: Vec<AssetFile> = Vec::new();
    let files = create_metadata_files(&images, "cid", true, true, ".yml").unwrap();
    assert!(files.is_empty());
}

#[test]
fn one_pass_uses_one_suffix() {
    let images = vec![asset("7.png"), asset("8.jpeg"), asset("9")];
    for suffix in ["", ".json", ".yaml", ".yml"] {
        let files = create_metadata_files(&images, "cid", true, false, suffix).unwrap();
        assert_eq!(files[0].file_name, format!("7{}", suffix));
        assert_eq!(files[1].file_name, format!("8{}", suffix));
        assert_eq!(files[2].file_name, format!("9{}", suffix));
        let bare = create_metadata_files(&images, "cid", false, false, suffix).unwrap();
        assert_eq!(bare[0].file_name, "7");
        assert_eq!(bare[1].file_name, "8");
        assert_eq!(bare[2].file_name, "9");
    }
}

#[test]
fn dual_version_with_suffix_is_always_json() {
    let images = vec![asset("3.png"), asset("4.png")];
    for suffix in ["", ".json", ".yaml", ".yml"] {
        let files = create_metadata_files(&images, "cid", true, true, suffix).unwrap();
        assert_eq!(files[0].file_name, "3.json");
        assert_eq!(files[1].file_name, "4.json");
        let bare = create_metadata_files(&images, "cid", false, true, suffix).unwrap();
        assert_eq!(bare[0].file_name, "3");
        assert_eq!(bare[1].file_name, "4");
    }
}

#[test]
fn file_name_keeps_the_stem_as_written() {
    assert_eq!(metadata_file_name("007.png", true, false, ".json"), "007.json");
    assert_eq!(metadata_file_name("007.png", false, false, ".json"), "007");
    assert_eq!(metadata_file_name("5.tar.gz", true, true, ".yml"), "5.tar.json");
    let files = create_metadata_files(&vec![asset("007.png")], "c", false, false, "").unwrap();
    assert_eq!(files[0].file_name, "007");
    assert_eq!(files[0].metadata.name, "MetaCore #7");
}

#[test]
fn unparseable_stem_fails_the_pass() {
    let images = vec![asset("1.png"), asset("cover.png"), asset("3.png")];
    let r = create_metadata_files(&images, "cid", false, false, "");
    assert_eq!(r.unwrap_err(), MetadataError::InvalidFilename { index: 1 });
    let r = create_metadata_files(&vec![asset("-1.png")], "cid", false, false, "");
    assert_eq!(r.unwrap_err(), MetadataError::InvalidFilename { index: 0 });
    let r = create_metadata_files(&vec![asset(".png")], "cid", false, false, "");
    assert_eq!(r.unwrap_err(), MetadataError::InvalidFilename { index: 0 });
    let r = create_metadata_files(&vec![asset("18446744073709551616.png")], "c", false, false, "");
    assert_eq!(r.unwrap_err(), MetadataError::InvalidFilename { index: 0 });
}

#[test]
fn repeated_token_fails_the_pass() {
    let images = vec![asset("1.png"), asset("2.png"), asset("1.jpg")];
    let r = create_metadata_files(&images, "cid", false, false, "");
    assert_eq!(r.unwrap_err(), MetadataError::DuplicateTokenId { index: 2 });
    let images = vec![asset("7.png"), asset("007.png")];
    let r = create_metadata_files(&images, "cid", true, true, "");
    assert_eq!(r.unwrap_err(), MetadataError::DuplicateTokenId { index: 1 });
}

#[test]
fn first_fault_wins() {
    let images = vec![asset("1.png"), asset("1.gif"), asset("x.png")];
    let r = create_metadata_files(&images, "cid", false, false, "");
    assert_eq!(r.unwrap_err(), MetadataError::DuplicateTokenId { index: 1 });
    let images = vec![asset("x.png"), asset("1.png"), asset("1.gif")];
    let r = create_metadata_files(&images, "cid", false, false, "");
    assert_eq!(r.unwrap_err(), MetadataError::InvalidFilename { index: 0 });
}

#[test]
fn token_id_of_an_asset() {
    assert_eq!(asset("42.png").token_id(), Some(42));
    assert_eq!(asset("42").token_id(), Some(42));
    assert_eq!(asset("+42.png").token_id(), Some(42));
    assert_eq!(asset("img42.png").token_id(), None);
    assert_eq!(asset("").token_id(), None);
}

#[test]
fn token_record_holds_the_identifier() {
    let m = token_record(18446744073709551615, "ipfs://x".to_string());
    assert_eq!(m.name, "MetaCore #18446744073709551615");
    assert_eq!(m.image, "ipfs://x");
    assert_eq!(m.attributes[0].value, u64::MAX);
}

#[test]
fn generation_is_repeatable() {
    let images = vec![asset("10.png"), asset("11.png")];
    let a = create_metadata_files(&images, "QmA", true, false, ".json").unwrap();
    let b = create_metadata_files(&images, "QmA", true, false, ".json").unwrap();
    for i in 0..2 {
        assert_eq!(a[i].file_name, b[i].file_name);
        assert_eq!(a[i].metadata.name, b[i].metadata.name);
        assert_eq!(a[i].metadata.image, b[i].metadata.image);
        assert_eq!(a[i].metadata.description, b[i].metadata.description);
        assert_eq!(a[i].metadata.attributes[0].value, b[i].metadata.attributes[0].value);
    }
}

#[test]
fn read_back_accepts_non_empty_files() {
    assert_eq!(check_read_back(2, &vec![Some(120), Some(1)]), Ok(()));
    assert_eq!(check_read_back(0, &vec![]), Ok(()));
}

#[test]
fn read_back_refuses_what_is_missing_unreadable_or_empty() {
    assert_eq!(
        check_read_back(3, &vec![Some(120), Some(1)]),
        Err(ReadBackError::CountMismatch { expected: 3, found: 2 })
    );
    assert_eq!(
        check_read_back(2, &vec![Some(120), None]),
        Err(ReadBackError::Unreadable { index: 1 })
    );
    assert_eq!(
        check_read_back(2, &vec![Some(0), None]),
        Err(ReadBackError::Empty { index: 0 })
    );
}
