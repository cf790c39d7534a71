//! The direction of a captured packet relative to the monitored endpoint.
use vstd::prelude::*;

verus! {

/// Which side of the conversation sent a packet.
#[derive(Clone, Copy, Debug, PartialEq, Eq, Structural)]
pub enum PacketSource {
    Client,
    Server,
}

/// The other side of the conversation.
pub open spec fn opposite_of(source: PacketSource) -> PacketSource {
    match source {
        PacketSource::Client => PacketSource::Server,
        PacketSource::Server => PacketSource::Client,
    }
}

/// The name under which a source appears in diagnostic lines.
pub open spec fn source_name(source: PacketSource) -> Seq<char> {
    match source {
        PacketSource::Client => "Client"@,
        PacketSource::Server => "Server"@,
    }
}

/// Returns the opposite of the source.
pub fn opposite(source: PacketSource) -> (r: PacketSource)
    ensures
        r == opposite_of(source),
        r != source,
{
    match source {
        PacketSource::Client => PacketSource::Server,
        PacketSource::Server => PacketSource::Client,
    }
}

/// The name of a source, as written in diagnostic lines.
pub fn name(source: PacketSource) -> (r: &'static str)
    ensures
        r@ == source_name(source),
{
    match source {
        PacketSource::Client => "Client",
        PacketSource::Server => "Server",
    }
}

/// `opposite` is an involution without fixed points: applying it twice gives
/// back the source it started from, and applying it once always changes it.
pub proof fn lemma_opposite_involution(source: PacketSource)
    ensures
        opposite_of(opposite_of(source)) == source,
        opposite_of(source) != source,
{
}

} // verus!
