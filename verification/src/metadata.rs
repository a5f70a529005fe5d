//! Metadata records, one per image of a collection, and the names of the
//! files that hold them.

use vstd::prelude::*;
use crate::text::{
    decimal_digits, file_stem, is_u64_text, parse_u64, stem_of, u64_of_text, u64_to_decimal,
};

verus! {

/// An image of the collection, as a directory listing shows it.
#[derive(Debug, Clone)]
pub struct AssetFile {
    pub file_name: String,
    pub size: u64,
}

/// One trait of a token.
#[derive(Debug, Clone)]
pub struct Attribute {
    pub trait_type: String,
    pub value: u64,
}

/// The metadata record of one token.
#[derive(Debug, Clone)]
pub struct NftMetadata {
    pub name: String,
    pub description: String,
    pub image: String,
    pub attributes: Vec<Attribute>,
}

/// A metadata record together with the name of the file that is to hold it.
#[derive(Debug, Clone)]
pub struct MetadataFile {
    pub file_name: String,
    pub metadata: NftMetadata,
}

/// Why no metadata can be generated for a list of images. `index` is the
/// position of the offending image in the list.
#[derive(PartialEq, Eq, Structural, Debug, Clone, Copy)]
pub enum MetadataError {
    /// The stem of the file name is not an unsigned number.
    InvalidFilename { index: usize },
    /// An earlier image of the list has the same token identifier.
    DuplicateTokenId { index: usize },
}

/// Why the files read back after generation are not accepted.
#[derive(PartialEq, Eq, Structural, Debug, Clone, Copy)]
pub enum ReadBackError {
    /// The directory holds another number of files than were generated.
    CountMismatch { expected: usize, found: usize },
    /// The file at `index` could not be read.
    Unreadable { index: usize },
    /// The file at `index` is empty.
    Empty { index: usize },
}

/// The description that every record of the collection carries.
pub open spec fn description_text() -> Seq<char> {
    "A unique member of the MetaCore collection."@
}

/// The display name of a token.
pub open spec fn token_name(token_id: nat) -> Seq<char> {
    "MetaCore #"@ + decimal_digits(token_id)
}

/// The address of a file inside an uploaded folder.
pub open spec fn folder_image_uri(folder_cid: Seq<char>, file_name: Seq<char>) -> Seq<char> {
    "ipfs://"@ + folder_cid + "/"@ + file_name
}

/// The address of content that was uploaded by itself.
pub open spec fn content_uri(cid: Seq<char>) -> Seq<char> {
    "ipfs://"@ + cid
}

/// `m` is the record of token `token_id` with the image at `image`: its one
/// attribute is the identifier.
pub open spec fn is_token_record(m: NftMetadata, token_id: u64, image: Seq<char>) -> bool {
    &&& m.name@ == token_name(token_id as nat)
    &&& m.description@ == description_text()
    &&& m.image@ == image
    &&& m.attributes@.len() == 1
    &&& m.attributes@[0].trait_type@ == "ID"@
    &&& m.attributes@[0].value == token_id
}

/// What a generation pass appends to each stem: nothing where no suffix is
/// asked for; `.json` in a pass of a dual-version run; else the configured
/// suffix.
pub open spec fn applied_suffix(
    with_suffix: bool,
    is_dual_version: bool,
    configured: Seq<char>,
) -> Seq<char> {
    if !with_suffix {
        Seq::empty()
    } else if is_dual_version {
        ".json"@
    } else {
        configured
    }
}

/// The stem of `name` is an unsigned number.
pub open spec fn has_token(name: Seq<char>) -> bool {
    is_u64_text(stem_of(name))
}

/// The token identifier that the file name `name` carries.
pub open spec fn token_of(name: Seq<char>) -> nat {
    u64_of_text(stem_of(name))
}

/// The file names of a list of images.
pub open spec fn asset_names(files: Seq<AssetFile>) -> Seq<Seq<char>> {
    Seq::new(files.len(), |i: int| files[i].file_name@)
}

/// An image before position `i` carries the token identifier of the one at `i`.
pub open spec fn token_clash(names: Seq<Seq<char>>, i: int) -> bool {
    exists|j: int| 0 <= j < i && #[trigger] token_of(names[j]) == token_of(names[i])
}

/// What is wrong with the image at position `i`, if anything.
pub open spec fn fault_at(names: Seq<Seq<char>>, i: int) -> Option<MetadataError> {
    if !has_token(names[i]) {
        Some(MetadataError::InvalidFilename { index: i as usize })
    } else if token_clash(names, i) {
        Some(MetadataError::DuplicateTokenId { index: i as usize })
    } else {
        None
    }
}

/// Nothing is wrong with the images before position `k`.
pub open spec fn faultless_before(names: Seq<Seq<char>>, k: int) -> bool {
    forall|i: int| 0 <= i < k ==> (#[trigger] fault_at(names, i)) is None
}

/// `f` is what a pass generates for the image named `name`.
pub open spec fn is_metadata_file(
    f: MetadataFile,
    name: Seq<char>,
    folder_cid: Seq<char>,
    suffix: Seq<char>,
) -> bool {
    &&& f.file_name@ == stem_of(name) + suffix
    &&& token_of(name) <= u64::MAX
    &&& is_token_record(f.metadata, token_of(name) as u64, folder_image_uri(folder_cid, name))
}

impl AssetFile {
    /// The token identifier in the file's name, if its stem is a number.
    pub fn token_id(&self) -> (r: Option<u64>)
        ensures
            r.is_some() == has_token(self.file_name@),
            r matches Some(v) ==> v as nat == token_of(self.file_name@),
    {
        let stem: String = file_stem(self.file_name.as_str());
        parse_u64(stem.as_str())
    }
}

/// The record of token `token_id` whose image is at `image`.
pub fn token_record(token_id: u64, image: String) -> (m: NftMetadata)
    ensures
        is_token_record(m, token_id, image@),
{
    let mut name: String = String::from_str("MetaCore #");
    let digits: String = u64_to_decimal(token_id);
    name.append(digits.as_str());
    let mut attributes: Vec<Attribute> = Vec::new();
    attributes.push(Attribute { trait_type: String::from_str("ID"), value: token_id });
    NftMetadata {
        name,
        description: String::from_str("A unique member of the MetaCore collection."),
        image,
        attributes,
    }
}

/// The name of the metadata file for the image named `image_name`.
pub fn metadata_file_name(
    image_name: &str,
    with_suffix: bool,
    is_dual_version: bool,
    suffix: &str,
) -> (r: String)
    ensures
        r@ == stem_of(image_name@) + applied_suffix(with_suffix, is_dual_version, suffix@),
{
    let mut r: String = file_stem(image_name);
    if with_suffix {
        if is_dual_version {
            r.append(".json");
        } else {
            r.append(suffix);
        }
    } else {
        assert(r@ + Seq::<char>::empty() =~= r@);
    }
    r
}

/// Generates the metadata of a collection: one file per image, in the order
/// of the list, each named by the image's stem and the suffix of this pass.
/// The first image whose stem is no number, or whose token identifier an
/// earlier image has, fails the whole pass.
pub fn create_metadata_files(
    image_files: &Vec<AssetFile>,
    images_folder_cid: &str,
    with_suffix: bool,
    is_dual_version: bool,
    suffix: &str,
) -> (r: Result<Vec<MetadataFile>, MetadataError>)
    ensures
        match r {
            Ok(files) => {
                &&& faultless_before(asset_names(image_files@), image_files@.len() as int)
                &&& files@.len() == image_files@.len()
                &&& forall|i: int|
                    0 <= i < files@.len() ==> is_metadata_file(
                        #[trigger] files@[i],
                        image_files@[i].file_name@,
                        images_folder_cid@,
                        applied_suffix(with_suffix, is_dual_version, suffix@),
                    )
                &&& forall|i: int, j: int|
                    0 <= i < j < files@.len() ==> (#[trigger] files@[i]).file_name@ != (
                    #[trigger] files@[j]).file_name@
            },
            Err(e) => exists|k: int|
                0 <= k < image_files@.len() && faultless_before(asset_names(image_files@), k)
                    && #[trigger] fault_at(asset_names(image_files@), k) == Some(e),
        },
{
    let ghost names = asset_names(image_files@);
    let ghost sfx = applied_suffix(with_suffix, is_dual_version, suffix@);
    let n: usize = image_files.len();
    let mut files: Vec<MetadataFile> = Vec::new();
    let mut ids: Vec<u64> = Vec::new();
    let mut i: usize = 0;
    while i < n
        invariant
            n == image_files@.len(),
            names == asset_names(image_files@),
            sfx == applied_suffix(with_suffix, is_dual_version, suffix@),
            i <= n,
            faultless_before(names, i as int),
            files@.len() == i,
            ids@.len() == i,
            forall|j: int| 0 <= j < i ==> (#[trigger] ids@[j]) as nat == token_of(names[j]),
            forall|j: int|
                0 <= j < i ==> is_metadata_file(
                    #[trigger] files@[j],
                    image_files@[j].file_name@,
                    images_folder_cid@,
                    sfx,
                ),
        decreases n - i,
    {
        let asset: &AssetFile = &image_files[i];
        assert(names[i as int] == asset.file_name@);
        let token_id: u64 = match asset.token_id() {
            Some(v) => v,
            None => {
                assert(fault_at(names, i as int) == Some(
                    MetadataError::InvalidFilename { index: i },
                ));
                return Err(MetadataError::InvalidFilename { index: i });
            },
        };
        let mut j: usize = 0;
        while j < i
            invariant
                j <= i,
                i < n,
                ids@.len() == i,
                n == image_files@.len(),
                names == asset_names(image_files@),
                token_id as nat == token_of(names[i as int]),
                has_token(names[i as int]),
                faultless_before(names, i as int),
                forall|k: int| 0 <= k < i ==> (#[trigger] ids@[k]) as nat == token_of(names[k]),
                forall|k: int| 0 <= k < j ==> token_of(names[k]) != token_of(names[i as int]),
            decreases i - j,
        {
            if ids[j] == token_id {
                assert(token_of(names[j as int]) == token_of(names[i as int]));
                assert(token_clash(names, i as int));
                assert(fault_at(names, i as int) == Some(
                    MetadataError::DuplicateTokenId { index: i },
                ));
                return Err(MetadataError::DuplicateTokenId { index: i });
            }
            j = j + 1;
        }
        assert(!token_clash(names, i as int));
        let mut image: String = String::from_str("ipfs://");
        image.append(images_folder_cid);
        image.append("/");
        image.append(asset.file_name.as_str());
        let metadata: NftMetadata = token_record(token_id, image);
        let file_name: String = metadata_file_name(
            asset.file_name.as_str(),
            with_suffix,
            is_dual_version,
            suffix,
        );
        files.push(MetadataFile { file_name, metadata });
        ids.push(token_id);
        i = i + 1;
    }
    proof {
        assert forall|i: int, j: int| 0 <= i < j < files@.len() implies (#[trigger] files@[i]).file_name@
            != (#[trigger] files@[j]).file_name@ by {
            lemma_file_names_distinct(names, sfx, i, j);
            assert(names[i] == image_files@[i].file_name@);
            assert(names[j] == image_files@[j].file_name@);
        }
    }
    Ok(files)
}

/// Accepts what was read back after a pass that generated `expected` files:
/// `read_back` holds, for each file found, its size, or `None` where it could
/// not be read. Every file must be readable and hold at least one byte.
pub fn check_read_back(expected: usize, read_back: &Vec<Option<u64>>) -> (r: Result<
    (),
    ReadBackError,
>)
    ensures
        match r {
            Ok(_) => read_back@.len() == expected && forall|i: int|
                0 <= i < read_back@.len() ==> accepted_size(#[trigger] read_back@[i]),
            Err(ReadBackError::CountMismatch { expected: e, found }) => e == expected && found
                == read_back@.len() && found != expected,
            Err(ReadBackError::Unreadable { index }) => read_back@.len() == expected && index
                < read_back@.len() && read_back@[index as int] is None && forall|i: int|
                0 <= i < index ==> accepted_size(#[trigger] read_back@[i]),
            Err(ReadBackError::Empty { index }) => read_back@.len() == expected && index
                < read_back@.len() && read_back@[index as int] == Some(0u64) && forall|i: int|
                0 <= i < index ==> accepted_size(#[trigger] read_back@[i]),
        },
{
    let n: usize = read_back.len();
    if n != expected {
        return Err(ReadBackError::CountMismatch { expected, found: n });
    }
    let mut i: usize = 0;
    while i < n
        invariant
            n == read_back@.len(),
            n == expected,
            i <= n,
            forall|k: int| 0 <= k < i ==> accepted_size(#[trigger] read_back@[k]),
        decreases n - i,
    {
        match read_back[i] {
            None => {
                return Err(ReadBackError::Unreadable { index: i });
            },
            Some(size) => {
                if size == 0 {
                    return Err(ReadBackError::Empty { index: i });
                }
            },
        }
        i = i + 1;
    }
    Ok(())
}

/// A file that was read back is accepted: it was readable and is not empty.
pub open spec fn accepted_size(size: Option<u64>) -> bool {
    size matches Some(s) && s > 0
}

/// A pass of a dual-version run that appends a suffix appends `.json`,
/// whatever suffix is configured.
pub proof fn lemma_dual_pass_appends_json(configured: Seq<char>)
    ensures
        applied_suffix(true, true, configured) == ".json"@,
{
}

/// Every file of `files` is named by the stem of its image and `suffix`.
pub open spec fn named_with(
    files: Seq<MetadataFile>,
    names: Seq<Seq<char>>,
    suffix: Seq<char>,
) -> bool {
    forall|i: int|
        0 <= i < files.len() ==> (#[trigger] files[i]).file_name@ == stem_of(names[i]) + suffix
}

/// A pass appends one and the same suffix to every stem, and nothing at all
/// where no suffix is asked for.
pub proof fn lemma_one_suffix_per_pass(
    files: Seq<MetadataFile>,
    names: Seq<Seq<char>>,
    folder_cid: Seq<char>,
    with_suffix: bool,
    is_dual_version: bool,
    configured: Seq<char>,
)
    requires
        files.len() == names.len(),
        forall|i: int|
            0 <= i < files.len() ==> is_metadata_file(
                #[trigger] files[i],
                names[i],
                folder_cid,
                applied_suffix(with_suffix, is_dual_version, configured),
            ),
    ensures
        exists|suffix: Seq<char>| #[trigger] named_with(files, names, suffix),
        !with_suffix ==> forall|i: int|
            0 <= i < files.len() ==> (#[trigger] files[i]).file_name@ == stem_of(names[i]),
{
    let suffix = applied_suffix(with_suffix, is_dual_version, configured);
    assert(named_with(files, names, suffix));
    if !with_suffix {
        assert forall|i: int| 0 <= i < files.len() implies (#[trigger] files[i]).file_name@
            == stem_of(names[i]) by {
            assert(stem_of(names[i]) + Seq::<char>::empty() =~= stem_of(names[i]));
        }
    }
}

/// Where nothing is wrong with a list of images, a pass names no two of its
/// files alike: it generates as many files as there are images.
pub proof fn lemma_file_names_distinct(names: Seq<Seq<char>>, suffix: Seq<char>, i: int, j: int)
    requires
        faultless_before(names, names.len() as int),
        0 <= i < j < names.len(),
    ensures
        stem_of(names[i]) + suffix != stem_of(names[j]) + suffix,
{
    assert(fault_at(names, j) is None);
    assert(!token_clash(names, j));
    assert(token_of(names[i]) != token_of(names[j]));
    let a = stem_of(names[i]);
    let b = stem_of(names[j]);
    if a + suffix == b + suffix {
        assert((a + suffix).len() == a.len() + suffix.len());
        assert((b + suffix).len() == b.len() + suffix.len());
        assert((a + suffix).subrange(0, a.len() as int) =~= a);
        assert((b + suffix).subrange(0, b.len() as int) =~= b);
        assert(a == b);
    }
}

/// A record is determined by its token and its image: two records of the
/// same token with the same image hold the same texts and the same attribute.
pub proof fn lemma_record_is_determined(
    a: NftMetadata,
    b: NftMetadata,
    token_id: u64,
    image: Seq<char>,
)
    requires
        is_token_record(a, token_id, image),
        is_token_record(b, token_id, image),
    ensures
        a.name@ == b.name@,
        a.description@ == b.description@,
        a.image@ == b.image@,
        a.attributes@.len() == b.attributes@.len(),
        a.attributes@[0].trait_type@ == b.attributes@[0].trait_type@,
        a.attributes@[0].value == b.attributes@[0].value,
{
}

/// Generation is a function of its inputs: two files generated for the same
/// image, folder and suffix hold the same name and the same record.
pub proof fn lemma_generation_is_deterministic(
    a: MetadataFile,
    b: MetadataFile,
    name: Seq<char>,
    folder_cid: Seq<char>,
    suffix: Seq<char>,
)
    requires
        is_metadata_file(a, name, folder_cid, suffix),
        is_metadata_file(b, name, folder_cid, suffix),
    ensures
        a.file_name@ == b.file_name@,
        a.metadata.name@ == b.metadata.name@,
        a.metadata.description@ == b.metadata.description@,
        a.metadata.image@ == b.metadata.image@,
        a.metadata.attributes@.len() == b.metadata.attributes@.len(),
        a.metadata.attributes@[0].trait_type@ == b.metadata.attributes@[0].trait_type@,
        a.metadata.attributes@[0].value == b.metadata.attributes@[0].value,
{
}

} // verus!
