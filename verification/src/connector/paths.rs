//! What the path of a request says, read back from the path alone: which
//! method of the BOB API it asks, and which virtual disk it is about. The
//! laws here hold each request's path to the request it was formed for.
use crate::connector::client::{
    endpoint_of, id_encoded, id_segment, in_id_encode_set, request_path_text, response_route,
    ApiRequest, Endpoint, ResponseRoute,
};
use crate::text::{
    is_ascii_digit, lemma_ascii_utf8, lemma_signed_decimal_text, signed_decimal_text,
    signed_decimal_value,
};
use vstd::prelude::*;

verus! {

/// Bytes outside the encode set stand for themselves in an encoded identifier.
proof fn lemma_id_encoded_plain(bytes: Seq<u8>)
    requires
        forall|i: int| 0 <= i < bytes.len() ==> !in_id_encode_set(#[trigger] bytes[i]),
    ensures
        id_encoded(bytes).len() == bytes.len(),
        forall|i: int| 0 <= i < bytes.len() ==> #[trigger] id_encoded(bytes)[i] as u32 == bytes[i] as u32,
    decreases bytes.len(),
{
    if bytes.len() > 0 {
        let init = bytes.drop_last();
        assert forall|i: int| 0 <= i < init.len() implies !in_id_encode_set(#[trigger] init[i]) by {
            assert(init[i] == bytes[i]);
        }
        lemma_id_encoded_plain(init);
        let b = bytes.last();
        assert(!in_id_encode_set(bytes[bytes.len() - 1]));
        let e = id_encoded(bytes);
        assert(e == id_encoded(init) + seq![b as char]);
        assert forall|i: int| 0 <= i < bytes.len() implies #[trigger] e[i] as u32 == bytes[i] as u32 by {
            if i < init.len() {
                assert(e[i] == id_encoded(init)[i]);
                assert(init[i] == bytes[i]);
            }
        }
    }
}

/// The path segment of a virtual disk identifier is the identifier's decimal
/// text: its characters need no encoding.
pub proof fn lemma_id_segment_is_decimal(id: i32)
    ensures
        id_segment(id) == signed_decimal_text(id as int),
{
    let s = signed_decimal_text(id as int);
    lemma_signed_decimal_text(id as int);
    assert forall|i: int| 0 <= i < s.len() implies (#[trigger] s[i] as u32) < 0x80 by {
        if !is_ascii_digit(s[i]) {
            assert(s[i] == '-');
        }
    }
    lemma_ascii_utf8(s);
    let e = vstd::utf8::encode_utf8(s);
    assert forall|i: int| 0 <= i < e.len() implies !in_id_encode_set(#[trigger] e[i]) by {
        assert(e[i] as u32 == s[i] as u32);
        if !is_ascii_digit(s[i]) {
            assert(s[i] == '-');
        }
    }
    lemma_id_encoded_plain(e);
    let r = id_encoded(e);
    assert forall|i: int| 0 <= i < s.len() implies #[trigger] r[i] == s[i] by {
        assert(r[i] as u32 == e[i] as u32);
        assert(e[i] as u32 == s[i] as u32);
        vstd::utf8::char_u32_cast(r[i], r[i] as u32);
        vstd::utf8::char_u32_cast(s[i], s[i] as u32);
    }
    assert(r =~= s);
}

/// Index of the first `/` of `p` at or after `i`, or the length of `p`
/// where none follows.
pub open spec fn first_slash_from(p: Seq<char>, i: int) -> int
    decreases p.len() - i,
{
    if i >= p.len() {
        p.len() as int
    } else if p[i] == '/' {
        i
    } else {
        first_slash_from(p, i + 1)
    }
}

proof fn lemma_first_slash(a: Seq<char>, seg: Seq<char>, b: Seq<char>, i: int)
    requires
        0 <= i <= seg.len(),
        forall|k: int| 0 <= k < seg.len() ==> #[trigger] seg[k] != '/',
        b.len() == 0 || b[0] == '/',
    ensures
        first_slash_from(a + seg + b, a.len() + i) == a.len() + seg.len(),
    decreases seg.len() - i,
{
    let p = a + seg + b;
    if i < seg.len() {
        assert(p[a.len() + i] == seg[i]);
        lemma_first_slash(a, seg, b, i + 1);
    } else if b.len() > 0 {
        assert(p[(a.len() + seg.len()) as int] == b[0]);
    }
}

/// The virtual disk segment of a path under `/vdisks/`: up to the next `/`.
pub open spec fn vdisk_segment(p: Seq<char>) -> Seq<char> {
    p.subrange(8, first_slash_from(p, 8))
}

/// Whether `p` lies under `/vdisks/` with a virtual disk segment after it.
pub open spec fn is_vdisk_path(p: Seq<char>) -> bool {
    p.len() > 8 && p.subrange(0, 8) == "/vdisks/"@
}

/// The method a request path asks, read from the path alone.
pub open spec fn method_of_path(p: Seq<char>) -> Option<Endpoint> {
    if is_vdisk_path(p) {
        let tail = p.subrange(first_slash_from(p, 8), p.len() as int);
        if tail.len() == 0 {
            Some(Endpoint::VDisk)
        } else if tail == "/partitions"@ {
            Some(Endpoint::Partitions)
        } else if tail == "/records/count"@ {
            Some(Endpoint::Records)
        } else if tail == "/replicas/local/dirs"@ {
            Some(Endpoint::ReplicasLocalDirs)
        } else if tail.len() >= 12 && tail.subrange(0, 12) == "/partitions/"@ {
            Some(Endpoint::Partition)
        } else {
            None
        }
    } else if p == "/alien/dir"@ {
        Some(Endpoint::AlienDir)
    } else if p == "/disks/list"@ {
        Some(Endpoint::Disks)
    } else if p == "/metrics"@ {
        Some(Endpoint::Metrics)
    } else if p == "/nodes"@ {
        Some(Endpoint::Nodes)
    } else if p == "/status/space"@ {
        Some(Endpoint::SpaceInfo)
    } else if p == "/status"@ {
        Some(Endpoint::Status)
    } else if p == "/vdisks"@ {
        Some(Endpoint::VDisks)
    } else if p == "/version"@ {
        Some(Endpoint::Version)
    } else if p == "/configuration"@ {
        Some(Endpoint::Configuration)
    } else {
        None
    }
}

/// The virtual disk a request is about, where it is about one.
pub open spec fn vdisk_id_of(request: ApiRequest) -> Option<i32> {
    match request {
        ApiRequest::Partition(id, _) => Some(id),
        ApiRequest::Partitions(id) => Some(id),
        ApiRequest::Records(id) => Some(id),
        ApiRequest::ReplicasLocalDirs(id) => Some(id),
        ApiRequest::VDisk(id) => Some(id),
        _ => None,
    }
}

/// A fixed path does not lie under `/vdisks/`: it is at most 8 characters
/// long, or its second character is not `v`.
proof fn lemma_fixed_not_vdisk(p: Seq<char>)
    requires
        p.len() <= 8 || p[1] != 'v',
    ensures
        !is_vdisk_path(p),
{
    reveal_strlit("/vdisks/");
    if p.len() > 8 {
        assert(p.subrange(0, 8)[1] == p[1]);
    }
}

/// The path of a request about a virtual disk lies under `/vdisks/`, and its
/// segment there is the disk's identifier in decimal, which reads back as
/// that identifier.
pub proof fn lemma_path_names_vdisk(request: ApiRequest)
    requires
        vdisk_id_of(request) is Some,
    ensures
        is_vdisk_path(request_path_text(request)),
        signed_decimal_value(vdisk_segment(request_path_text(request))) == vdisk_id_of(
            request,
        )->0 as int,
{
    let id = vdisk_id_of(request)->0;
    lemma_vdisk_path_shape(request);
    lemma_signed_decimal_text(id as int);
}

/// A path under `/vdisks/` splits into the prefix, the identifier's decimal
/// text, and the rest, which is empty or starts with `/`.
proof fn lemma_vdisk_path_shape(request: ApiRequest)
    requires
        vdisk_id_of(request) is Some,
    ensures
        ({
            let p = request_path_text(request);
            let seg = signed_decimal_text(vdisk_id_of(request)->0 as int);
            &&& is_vdisk_path(p)
            &&& first_slash_from(p, 8) == 8 + seg.len()
            &&& vdisk_segment(p) == seg
            &&& p.subrange(8 + seg.len() as int, p.len() as int) == vdisk_tail(request)
        }),
{
    reveal_strlit("/vdisks/");
    reveal_strlit("/partitions/");
    reveal_strlit("/partitions");
    reveal_strlit("/records/count");
    reveal_strlit("/replicas/local/dirs");
    let id = vdisk_id_of(request)->0;
    lemma_id_segment_is_decimal(id);
    let seg = signed_decimal_text(id as int);
    lemma_signed_decimal_text(id as int);
    assert forall|k: int| 0 <= k < seg.len() implies #[trigger] seg[k] != '/' by {
        if !is_ascii_digit(seg[k]) {
            assert(seg[k] == '-');
        }
    }
    let a = "/vdisks/"@;
    let b = vdisk_tail(request);
    let p = request_path_text(request);
    assert(p =~= a + seg + b);
    lemma_first_slash(a, seg, b, 0);
    assert(p.subrange(0, 8) =~= a);
    assert(p.subrange(8, 8 + seg.len() as int) =~= seg);
    assert(p.subrange(8 + seg.len() as int, p.len() as int) =~= b);
}

/// What follows the identifier in the path of a request about a virtual disk.
spec fn vdisk_tail(request: ApiRequest) -> Seq<char> {
    match request {
        ApiRequest::Partition(_, partition) => "/partitions/"@ + id_encoded(
            vstd::utf8::encode_utf8(partition@),
        ),
        ApiRequest::Partitions(_) => "/partitions"@,
        ApiRequest::Records(_) => "/records/count"@,
        ApiRequest::ReplicasLocalDirs(_) => "/replicas/local/dirs"@,
        _ => Seq::empty(),
    }
}

/// Each request asks the method its path names: reading the method back
/// from the path gives the request's own method.
pub proof fn lemma_path_names_method(request: ApiRequest)
    ensures
        method_of_path(request_path_text(request)) == Some(endpoint_of(request)),
{
    reveal_strlit("/alien/dir");
    reveal_strlit("/disks/list");
    reveal_strlit("/metrics");
    reveal_strlit("/nodes");
    reveal_strlit("/status/space");
    reveal_strlit("/status");
    reveal_strlit("/vdisks");
    reveal_strlit("/version");
    reveal_strlit("/configuration");
    reveal_strlit("/partitions/");
    reveal_strlit("/partitions");
    reveal_strlit("/records/count");
    reveal_strlit("/replicas/local/dirs");
    let p = request_path_text(request);
    if vdisk_id_of(request) is Some {
        lemma_vdisk_path_shape(request);
        let seg = signed_decimal_text(vdisk_id_of(request)->0 as int);
        let tail = p.subrange(8 + seg.len() as int, p.len() as int);
        assert(tail == vdisk_tail(request));
        match request {
            ApiRequest::Partition(_, partition) => {
                let rest = id_encoded(vstd::utf8::encode_utf8(partition@));
                assert(tail.subrange(0, 12) =~= "/partitions/"@);
                assert(tail.len() >= 12);
                assert(tail[1] == 'p');
                assert("/records/count"@[1] == 'r');
                assert("/replicas/local/dirs"@[1] == 'r');
                assert(tail != "/records/count"@);
                assert(tail != "/replicas/local/dirs"@);
                assert(tail != "/partitions"@);
            },
            ApiRequest::Partitions(_) => {
                assert(tail =~= "/partitions"@);
            },
            ApiRequest::Records(_) => {
                assert(tail =~= "/records/count"@);
                assert(tail != "/partitions"@);
            },
            ApiRequest::ReplicasLocalDirs(_) => {
                assert(tail =~= "/replicas/local/dirs"@);
                assert(tail != "/partitions"@);
                assert(tail[1] == 'r');
                assert("/records/count"@[2] == 'e');
                assert(tail[2] == 'e');
                assert(tail != "/records/count"@);
            },
            _ => {
                assert(tail.len() == 0);
            },
        }
        assert(method_of_path(p) == Some(endpoint_of(request)));
    } else {
        lemma_fixed_not_vdisk(p);
        match request {
            ApiRequest::AlienDir => {},
            ApiRequest::Disks => {
                assert(p != "/alien/dir"@);
            },
            ApiRequest::Metrics => {
                assert(p != "/alien/dir"@);
                assert(p != "/disks/list"@);
            },
            ApiRequest::Nodes => {
                assert(p != "/alien/dir"@);
                assert(p != "/disks/list"@);
                assert(p != "/metrics"@);
            },
            ApiRequest::SpaceInfo => {
                assert(p != "/alien/dir"@);
                assert(p != "/disks/list"@);
                assert(p != "/metrics"@);
                assert(p != "/nodes"@);
            },
            ApiRequest::Status => {
                assert(p != "/alien/dir"@);
                assert(p != "/disks/list"@);
                assert(p != "/metrics"@);
                assert(p != "/nodes"@);
                assert(p != "/status/space"@);
            },
            ApiRequest::VDisks => {
                assert(p != "/alien/dir"@);
                assert(p != "/disks/list"@);
                assert(p != "/metrics"@);
                assert(p != "/nodes"@);
                assert(p != "/status/space"@);
                assert(p[1] == 'v' && "/status"@[1] == 's');
                assert(p != "/status"@);
            },
            ApiRequest::Version => {
                assert(p != "/alien/dir"@);
                assert(p != "/disks/list"@);
                assert(p[1] == 'v' && "/metrics"@[1] == 'm');
                assert(p != "/metrics"@);
                assert(p != "/nodes"@);
                assert(p != "/status/space"@);
                assert(p != "/status"@);
                assert(p != "/vdisks"@);
            },
            ApiRequest::Configuration => {
                assert(p != "/alien/dir"@);
                assert(p != "/disks/list"@);
                assert(p != "/metrics"@);
                assert(p != "/nodes"@);
                assert(p != "/status/space"@);
                assert(p != "/status"@);
                assert(p != "/vdisks"@);
                assert(p != "/version"@);
            },
            _ => {},
        }
        assert(method_of_path(p) == Some(endpoint_of(request)));
    }
}

/// A method answers `404` with the status of a missing resource exactly
/// where the paths of its requests name a virtual disk.
pub proof fn lemma_not_found_iff_vdisk_path(request: ApiRequest)
    ensures
        response_route(endpoint_of(request), 404) == ResponseRoute::NotFound <==> is_vdisk_path(
            request_path_text(request),
        ),
{
    reveal_strlit("/alien/dir");
    reveal_strlit("/disks/list");
    reveal_strlit("/metrics");
    reveal_strlit("/nodes");
    reveal_strlit("/status/space");
    reveal_strlit("/status");
    reveal_strlit("/vdisks");
    reveal_strlit("/version");
    reveal_strlit("/configuration");
    if vdisk_id_of(request) is Some {
        lemma_vdisk_path_shape(request);
    } else {
        lemma_fixed_not_vdisk(request_path_text(request));
    }
}

} // verus!
