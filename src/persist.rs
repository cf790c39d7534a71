//! What the persistence consumer does with each captured packet, and the
//! state machine that drives it over the pipeline.
use crate::source::{name, opposite, opposite_of, source_name, PacketSource};
use crate::text::{base64_decoded_of, base64_of, decimal, decimal_string, encode_payload};
use vstd::prelude::*;
use vstd::string::StringExecFns;

verus! {

/// One captured packet, as it flows through the pipeline.
pub struct PacketRecord {
    /// Unique per process run; names the output file.
    pub id: String,
    pub source: PacketSource,
    pub payload: Vec<u8>,
}

/// The mathematical content of a record.
pub struct RecordView {
    pub id: Seq<char>,
    pub source: PacketSource,
    pub payload: Seq<u8>,
}

impl View for PacketRecord {
    type V = RecordView;

    open spec fn view(&self) -> RecordView {
        RecordView { id: self.id@, source: self.source, payload: self.payload@ }
    }
}

/// The durable write and the diagnostic line owed for one record.
pub struct WritePlan {
    /// Where the encoded payload goes; created or truncated.
    pub path: String,
    /// The text-safe encoding of the payload.
    pub content: String,
    /// The one-line summary to log before the write.
    pub summary: String,
}

pub struct PlanView {
    pub path: Seq<char>,
    pub content: Seq<char>,
    pub summary: Seq<char>,
}

impl View for WritePlan {
    type V = PlanView;

    open spec fn view(&self) -> PlanView {
        PlanView { path: self.path@, content: self.content@, summary: self.summary@ }
    }
}

/// The output path of the record with identifier `id`.
pub open spec fn path_of(id: Seq<char>) -> Seq<char> {
    "dump/packet-"@ + id + ".bin"@
}

/// `<source> -> <opposite>: <id> of length <n> bytes`
pub open spec fn summary_of(source: PacketSource, id: Seq<char>, len: nat) -> Seq<char> {
    source_name(source) + " -> "@ + source_name(opposite_of(source)) + ": "@ + id
        + " of length "@ + decimal(len) + " bytes"@
}

pub open spec fn plan_of(r: RecordView) -> PlanView {
    PlanView {
        path: path_of(r.id),
        content: base64_of(r.payload),
        summary: summary_of(r.source, r.id, r.payload.len()),
    }
}

/// A payload that a `Vec` can hold.
pub open spec fn record_fits(r: RecordView) -> bool {
    r.payload.len() <= isize::MAX
}

/// The output path for a record identifier.
pub fn output_path(id: &String) -> (r: String)
    ensures
        r@ == path_of(id@),
{
    let mut p = String::from_str("dump/packet-");
    p.append(id.as_str());
    p.append(".bin");
    p
}

/// The diagnostic line for a packet of `len` bytes.
pub fn summary_line(source: PacketSource, id: &String, len: usize) -> (r: String)
    ensures
        r@ == summary_of(source, id@, len as nat),
{
    let mut s = String::from_str(name(source));
    s.append(" -> ");
    s.append(name(opposite(source)));
    s.append(": ");
    s.append(id.as_str());
    s.append(" of length ");
    let digits = decimal_string(len);
    s.append(digits.as_str());
    s.append(" bytes");
    s
}

/// Everything to do for one record: encode the payload, derive the path from
/// the identifier and compose the summary line. The content decodes back to
/// the payload.
pub fn plan_write(record: &PacketRecord) -> (r: WritePlan)
    requires
        record_fits(record@),
    ensures
        r@ == plan_of(record@),
        base64_decoded_of(r.content@) == Some(record.payload@),
{
    let path = output_path(&record.id);
    let content = encode_payload(&record.payload);
    let summary = summary_line(record.source, &record.id, record.payload.len());
    WritePlan { path, content, summary }
}

} // verus!
