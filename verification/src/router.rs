//! Request routing: exact match on (method, path) against a table of
//! entries, open for extension by adding entries rather than branches.

use vstd::prelude::*;

use crate::bytes::bytes_eq;

verus! {

/// The handlers a route can resolve to.
#[derive(Clone, Copy, Debug, PartialEq, Eq, Structural)]
pub enum RouteTarget {
    WebhookBuild,
}

/// One row of the routing table.
pub struct RouteEntry {
    pub method: Vec<u8>,
    pub path: Vec<u8>,
    pub target: RouteTarget,
}

/// A routing table, matched in entry order.
pub struct RoutingTable {
    pub entries: Vec<RouteEntry>,
}

/// The target of the first entry matching (method, path) exactly and
/// case-sensitively; `None` when no entry matches.
pub open spec fn route_of(entries: Seq<RouteEntry>, method: Seq<u8>, path: Seq<u8>) -> Option<
    RouteTarget,
>
    decreases entries.len(),
{
    if entries.len() == 0 {
        None
    } else if entries[0].method@ == method && entries[0].path@ == path {
        Some(entries[0].target)
    } else {
        route_of(entries.drop_first(), method, path)
    }
}

impl RoutingTable {
    pub fn new() -> (r: RoutingTable)
        ensures
            r.entries@.len() == 0,
    {
        RoutingTable { entries: Vec::new() }
    }

    /// Adds one entry at the end of the table.
    pub fn add_route(&mut self, method: Vec<u8>, path: Vec<u8>, target: RouteTarget)
        ensures
            final(self).entries@ == old(self).entries@.push(
                (RouteEntry { method: method, path: path, target: target }),
            ),
    {
        self.entries.push(RouteEntry { method, path, target });
    }

    /// Resolves a request line against the table.
    pub fn route(&self, method: &Vec<u8>, path: &Vec<u8>) -> (r: Option<RouteTarget>)
        ensures
            r == route_of(self.entries@, method@, path@),
    {
        let n = self.entries.len();
        let mut i: usize = 0;
        proof {
            assert(self.entries@.skip(0) =~= self.entries@);
        }
        while i < n
            invariant
                n == self.entries.len(),
                i <= n,
                route_of(self.entries@.skip(i as int), method@, path@) == route_of(
                    self.entries@,
                    method@,
                    path@,
                ),
            decreases n - i,
        {
            proof {
                assert(self.entries@.skip(i as int)[0] == self.entries@[i as int]);
            }
            let entry = &self.entries[i];
            if bytes_eq(&entry.method, method) && bytes_eq(&entry.path, path) {
                return Some(entry.target);
            }
            proof {
                assert(self.entries@.skip(i as int).drop_first() =~= self.entries@.skip(
                    i as int + 1,
                ));
            }
            i = i + 1;
        }
        None
    }
}

} // verus!
