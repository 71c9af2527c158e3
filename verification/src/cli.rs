//! The command-line surface: the output path's suffix selects the export
//! target.  Argument collection itself is I/O and lives outside the
//! library; this module holds the decision logic.

use vstd::prelude::*;
use vstd::utf8::encode_utf8;

verus! {

/// The selected export target, with the output path.
#[derive(Debug, Clone, PartialEq)]
pub enum OutputFile {
    Json(String),
    Csv(String),
}

/// The parsed command line: the input log and the selected output.
#[derive(Debug, Clone, PartialEq)]
pub struct Args {
    pub input: String,
    pub output: OutputFile,
}

/// The UTF-8 bytes of `.json`.
pub open spec fn json_suffix() -> Seq<u8> {
    seq![0x2eu8, 0x6au8, 0x73u8, 0x6fu8, 0x6eu8]
}

/// The UTF-8 bytes of `.csv`.
pub open spec fn csv_suffix() -> Seq<u8> {
    seq![0x2eu8, 0x63u8, 0x73u8, 0x76u8]
}

/// Whether the UTF-8 encoding of `s` ends with the bytes `suf`.
pub open spec fn bytes_end_with(s: Seq<char>, suf: Seq<u8>) -> bool {
    let b = encode_utf8(s);
    b.len() >= suf.len() && b.subrange(b.len() - suf.len(), b.len() as int) == suf
}

/// Whether the byte slice ends with `suf`.
fn slice_ends_with(b: &[u8], suf: &[u8]) -> (r: bool)
    ensures
        r == (b@.len() >= suf@.len() && b@.subrange(
            b@.len() - suf@.len(),
            b@.len() as int,
        ) =~= suf@),
{
    if b.len() < suf.len() {
        return false;
    }
    let start: usize = b.len() - suf.len();
    let mut i: usize = 0;
    while i < suf.len()
        invariant
            b@.len() <= usize::MAX,
            b@.len() >= suf@.len(),
            start == b@.len() - suf@.len(),
            0 <= i <= suf@.len(),
            forall|j: int| 0 <= j < i ==> b@[start + j] == #[trigger] suf@[j],
        decreases suf@.len() - i,
    {
        if b[start + i] != suf[i] {
            return false;
        }
        i = i + 1;
    }
    proof {
        assert(b@.subrange(b@.len() - suf@.len(), b@.len() as int) =~= suf@);
    }
    true
}

impl OutputFile {
    /// Selects the export target from the output path: a `.json` suffix
    /// selects JSON, a `.csv` suffix selects CSV, anything else is
    /// rejected with the usage message.
    pub fn from_str(input: &str) -> (r: Result<OutputFile, String>)
        ensures
            bytes_end_with(input@, json_suffix()) ==> (r matches Ok(o) && o matches OutputFile::Json(p) && p@ == input@),
            !bytes_end_with(input@, json_suffix()) && bytes_end_with(input@, csv_suffix())
                ==> (r matches Ok(o) && o matches OutputFile::Csv(p) && p@ == input@),
            !bytes_end_with(input@, json_suffix()) && !bytes_end_with(input@, csv_suffix())
                ==> (r matches Err(e) && e@
                == "The output file must have a .json or .csv extension"@),
    {
        let b = input.as_bytes();
        let json_tail: [u8; 5] = [0x2e, 0x6a, 0x73, 0x6f, 0x6e];
        let csv_tail: [u8; 4] = [0x2e, 0x63, 0x73, 0x76];
        proof {
            assert(json_tail@ =~= json_suffix());
            assert(csv_tail@ =~= csv_suffix());
        }
        if slice_ends_with(b, json_tail.as_slice()) {
            Ok(OutputFile::Json(input.to_owned()))
        } else if slice_ends_with(b, csv_tail.as_slice()) {
            Ok(OutputFile::Csv(input.to_owned()))
        } else {
            Err("The output file must have a .json or .csv extension".to_owned())
        }
    }
}

} // verus!
