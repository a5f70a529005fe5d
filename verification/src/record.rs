//! What a run leaves behind: its record and the summary written beside it.

use vstd::prelude::*;
use crate::text::{decimal_digits, optional_text, u64_to_decimal};

verus! {

/// The directory, inside a run's output directory, that holds its record.
pub const RESULTS_DIRECTORY: &'static str = "results";

/// The name of the file that holds a run's record.
pub const RESULT_FILE_NAME: &'static str = "upload-result.json";

/// The name of the file that holds a run's summary.
pub const SUMMARY_FILE_NAME: &'static str = "README.md";

/// The directory, inside a run's output directory, that holds the copy of
/// the retained metadata.
pub const METADATA_DIRECTORY: &'static str = "metadata";

/// The record of a batch run.
#[derive(Debug)]
pub struct BatchRunRecord {
    pub timestamp: String,
    pub images_cid: String,
    pub metadata_with_suffix_cid: Option<String>,
    pub metadata_without_suffix_cid: Option<String>,
    pub total_files: usize,
    pub status: String,
}

/// The record of a single run.
#[derive(Debug)]
pub struct SingleRunRecord {
    pub image_cid: String,
    pub metadata_cid: String,
    pub status: String,
    pub timestamp: String,
    pub token_id: u64,
}

/// `cid`, or `default` where there is none.
pub open spec fn cid_or(cid: Option<Seq<char>>, default: Seq<char>) -> Seq<char> {
    match cid {
        Some(c) => c,
        None => default,
    }
}

/// The number of metadata folders that a batch run uploads.
pub open spec fn metadata_folders(generate_both_versions: bool) -> nat {
    if generate_both_versions {
        2
    } else {
        1
    }
}

/// The summary of a batch run.
pub open spec fn batch_readme_text(
    timestamp: Seq<char>,
    images_cid: Seq<char>,
    with_suffix_cid: Option<Seq<char>>,
    without_suffix_cid: Option<Seq<char>>,
    total_files: nat,
) -> Seq<char> {
    "# Batch Upload Results\n\n## Upload Information\n- **Timestamp**: "@ + timestamp
        + "\n- **Images CID**: `"@ + images_cid + "`\n- **Metadata with suffix CID**: `"@ + cid_or(
        with_suffix_cid,
        "N/A"@,
    ) + "`\n- **Metadata without suffix CID**: `"@ + cid_or(without_suffix_cid, "N/A"@)
        + "`\n- **Total files**: "@ + decimal_digits(total_files)
        + "\n\n## Usage\n- For contracts expecting .json suffix: Use `ipfs://"@ + cid_or(
        with_suffix_cid,
        Seq::<char>::empty(),
    ) + "/`\n- For contracts without suffix: Use `ipfs://"@ + cid_or(
        without_suffix_cid,
        Seq::<char>::empty(),
    ) + "/`\n\n## Files\n- Images are available at: `ipfs://"@ + images_cid
        + "/`\n- Metadata files are available at the respective CIDs above.\n- Local metadata files are saved in the `metadata/` folder for reference.\n"@
}

/// The summary of a single run.
pub open spec fn single_readme_text(
    timestamp: Seq<char>,
    image_cid: Seq<char>,
    metadata_cid: Seq<char>,
    token_id: nat,
) -> Seq<char> {
    "# Single File Upload Results\n\n## Upload Information\n- **Timestamp**: "@ + timestamp
        + "\n- **Image CID**: `"@ + image_cid + "`\n- **Metadata CID**: `"@ + metadata_cid
        + "`\n- **Token ID**: "@ + decimal_digits(token_id)
        + "\n\n## Usage\n- The Token URI for this NFT is: `ipfs://"@ + metadata_cid
        + "`\n\n## Files\n- Image is available at: `https://gateway.pinata.cloud/ipfs/"@
        + image_cid + "`\n- Metadata is available at: `https://gateway.pinata.cloud/ipfs/"@
        + metadata_cid + "`\n"@
}

/// The record of a batch run that uploaded the image folder as `images_cid`
/// and then the metadata folders of its passes, in order, as `metadata_cids`.
/// A dual-version run has two such folders, with suffix and without; any
/// other run has one, recorded as the folder without suffix. `None` where
/// the number of folders is not that of the run.
pub fn batch_run_record(
    timestamp: &str,
    images_cid: &str,
    generate_both_versions: bool,
    metadata_cids: &Vec<String>,
    total_files: usize,
) -> (r: Option<BatchRunRecord>)
    ensures
        r.is_some() == (metadata_cids@.len() == metadata_folders(generate_both_versions)),
        r matches Some(rec) ==> {
            &&& rec.timestamp@ == timestamp@
            &&& rec.images_cid@ == images_cid@
            &&& rec.total_files == total_files
            &&& rec.status@ == "completed"@
            &&& optional_text(rec.metadata_with_suffix_cid) == if generate_both_versions {
                Some(metadata_cids@[0]@)
            } else {
                None
            }
            &&& optional_text(rec.metadata_without_suffix_cid) == Some(
                metadata_cids@[metadata_cids@.len() - 1]@,
            )
        },
{
    let expected: usize = if generate_both_versions {
        2
    } else {
        1
    };
    if metadata_cids.len() != expected {
        return None;
    }
    let with: Option<String> = if generate_both_versions {
        Some(metadata_cids[0].clone())
    } else {
        None
    };
    let without: String = metadata_cids[expected - 1].clone();
    Some(
        BatchRunRecord {
            timestamp: String::from_str(timestamp),
            images_cid: String::from_str(images_cid),
            metadata_with_suffix_cid: with,
            metadata_without_suffix_cid: Some(without),
            total_files,
            status: String::from_str("completed"),
        },
    )
}

/// The record of a single run for the given token, or for token 1 where
/// none is given.
pub fn single_run_record(
    timestamp: &str,
    image_cid: &str,
    metadata_cid: &str,
    token_id: Option<u64>,
) -> (rec: SingleRunRecord)
    ensures
        rec.timestamp@ == timestamp@,
        rec.image_cid@ == image_cid@,
        rec.metadata_cid@ == metadata_cid@,
        rec.status@ == "completed"@,
        rec.token_id == match token_id {
            Some(t) => t,
            None => 1,
        },
{
    SingleRunRecord {
        image_cid: String::from_str(image_cid),
        metadata_cid: String::from_str(metadata_cid),
        status: String::from_str("completed"),
        timestamp: String::from_str(timestamp),
        token_id: match token_id {
            Some(t) => t,
            None => 1,
        },
    }
}

impl BatchRunRecord {
    /// The summary of the run.
    pub fn readme(&self) -> (r: String)
        ensures
            r@ == batch_readme_text(
                self.timestamp@,
                self.images_cid@,
                optional_text(self.metadata_with_suffix_cid),
                optional_text(self.metadata_without_suffix_cid),
                self.total_files as nat,
            ),
    {
        proof {
            reveal_strlit("");
            assert(""@ =~= Seq::<char>::empty());
        }
        let with: &str = match &self.metadata_with_suffix_cid {
            Some(c) => c.as_str(),
            None => "N/A",
        };
        let without: &str = match &self.metadata_without_suffix_cid {
            Some(c) => c.as_str(),
            None => "N/A",
        };
        let with_or_empty: &str = match &self.metadata_with_suffix_cid {
            Some(c) => c.as_str(),
            None => "",
        };
        let without_or_empty: &str = match &self.metadata_without_suffix_cid {
            Some(c) => c.as_str(),
            None => "",
        };
        let total: String = u64_to_decimal(self.total_files as u64);
        let mut r: String = String::from_str(
            "# Batch Upload Results\n\n## Upload Information\n- **Timestamp**: ",
        );
        r.append(self.timestamp.as_str());
        r.append("\n- **Images CID**: `");
        r.append(self.images_cid.as_str());
        r.append("`\n- **Metadata with suffix CID**: `");
        r.append(with);
        r.append("`\n- **Metadata without suffix CID**: `");
        r.append(without);
        r.append("`\n- **Total files**: ");
        r.append(total.as_str());
        r.append("\n\n## Usage\n- For contracts expecting .json suffix: Use `ipfs://");
        r.append(with_or_empty);
        r.append("/`\n- For contracts without suffix: Use `ipfs://");
        r.append(without_or_empty);
        r.append("/`\n\n## Files\n- Images are available at: `ipfs://");
        r.append(self.images_cid.as_str());
        r.append(
            "/`\n- Metadata files are available at the respective CIDs above.\n- Local metadata files are saved in the `metadata/` folder for reference.\n",
        );
        r
    }
}

impl SingleRunRecord {
    /// The summary of the run.
    pub fn readme(&self) -> (r: String)
        ensures
            r@ == single_readme_text(
                self.timestamp@,
                self.image_cid@,
                self.metadata_cid@,
                self.token_id as nat,
            ),
    {
        let token: String = u64_to_decimal(self.token_id);
        let mut r: String = String::from_str(
            "# Single File Upload Results\n\n## Upload Information\n- **Timestamp**: ",
        );
        r.append(self.timestamp.as_str());
        r.append("\n- **Image CID**: `");
        r.append(self.image_cid.as_str());
        r.append("`\n- **Metadata CID**: `");
        r.append(self.metadata_cid.as_str());
        r.append("`\n- **Token ID**: ");
        r.append(token.as_str());
        r.append("\n\n## Usage\n- The Token URI for this NFT is: `ipfs://");
        r.append(self.metadata_cid.as_str());
        r.append("`\n\n## Files\n- Image is available at: `https://gateway.pinata.cloud/ipfs/");
        r.append(self.image_cid.as_str());
        r.append("`\n- Metadata is available at: `https://gateway.pinata.cloud/ipfs/");
        r.append(self.metadata_cid.as_str());
        r.append("`\n");
        r
    }
}

} // verus!
