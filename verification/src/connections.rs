//! Device connection descriptors: selecting which interface addresses to
//! report, tagging them, and rendering them for a log line. Asking the
//! system for its interfaces happens at the runtime's edge.

use vstd::prelude::*;

verus! {

/// An interface's operational state, as the system reports it.
#[derive(Clone, Copy, Debug, PartialEq, Eq, Structural)]
pub enum OperateState {
    Unknown,
    Up,
    Down,
}

/// The scope of one address on an interface.
#[derive(Clone, Copy, Debug, PartialEq, Eq, Structural)]
pub enum Scope {
    Host,
    Link,
    Global,
}

/// One address record of an interface.
#[derive(Clone, Copy, Debug, PartialEq, Eq, Structural)]
pub struct AddrInfo {
    pub scope: Scope,
}

/// What the core reads of one interface.
pub struct Interface {
    pub operate_state: OperateState,
    pub address: Option<String>,
    pub addr_info: Vec<AddrInfo>,
}

/// The interface carries at least one globally scoped address.
pub open spec fn has_global(infos: Seq<AddrInfo>) -> bool {
    exists|i: int| 0 <= i < infos.len() && infos[i].scope == Scope::Global
}

/// An interface's hardware address is reported when the interface is up,
/// globally scoped and has one.
pub open spec fn selected(it: Interface) -> bool {
    it.address is Some && it.operate_state == OperateState::Up && has_global(it.addr_info@)
}

/// The addresses of the selected interfaces among the first `i`, in order.
pub open spec fn addresses_fold(v: Seq<Interface>, i: int) -> Seq<String>
    decreases i,
{
    if i <= 0 {
        Seq::empty()
    } else {
        let r = addresses_fold(v, i - 1);
        if selected(v[i - 1]) {
            r.push(v[i - 1].address->0)
        } else {
            r
        }
    }
}

/// Picks the hardware addresses worth reporting: those of interfaces that
/// are up and carry a globally scoped address.
pub fn select_addresses(interfaces: Vec<Interface>) -> (r: Vec<String>)
    ensures
        r@ == addresses_fold(interfaces@, interfaces@.len() as int),
{
    let ghost orig = interfaces@;
    let mut interfaces = interfaces;
    let total = interfaces.len();
    let mut out: Vec<String> = Vec::new();
    let mut i: usize = 0;
    while i < total
        invariant
            total == orig.len(),
            0 <= i <= total,
            interfaces@ == orig.skip(i as int),
            out@ == addresses_fold(orig, i as int),
        decreases total - i,
    {
        proof {
            assert(orig.skip(i as int)[0] == orig[i as int]);
        }
        let it = interfaces.remove(0);
        let up = matches!(it.operate_state, OperateState::Up);
        let mut global = false;
        let m = it.addr_info.len();
        let mut k: usize = 0;
        while k < m
            invariant
                m == it.addr_info@.len(),
                0 <= k <= m,
                global == exists|j: int|
                    0 <= j < k && it.addr_info@[j].scope == Scope::Global,
            decreases m - k,
        {
            if matches!(it.addr_info[k].scope, Scope::Global) {
                global = true;
            }
            k = k + 1;
        }
        match it.address {
            Some(addr) => {
                if up && global {
                    out.push(addr);
                }
            },
            None => {},
        }
        proof {
            assert(interfaces@ =~= orig.skip(i + 1));
        }
        i = i + 1;
    }
    out
}

/// Tags each reported address as a hardware address for the device
/// metadata.
pub fn get_connections(addresses: Vec<String>) -> (r: Vec<(String, String)>)
    ensures
        r@.len() == addresses@.len(),
        forall|i: int|
            0 <= i < addresses@.len() ==> (#[trigger] r@[i]).0@ == "mac"@ && r@[i].1
                == addresses@[i],
{
    let ghost orig = addresses@;
    let mut addresses = addresses;
    let total = addresses.len();
    let mut out: Vec<(String, String)> = Vec::new();
    let mut i: usize = 0;
    while i < total
        invariant
            total == orig.len(),
            0 <= i <= total,
            addresses@ == orig.skip(i as int),
            out@.len() == i,
            forall|j: int|
                0 <= j < i ==> (#[trigger] out@[j]).0@ == "mac"@ && out@[j].1 == orig[j],
        decreases total - i,
    {
        proof {
            assert(orig.skip(i as int)[0] == orig[i as int]);
        }
        let addr = addresses.remove(0);
        out.push((String::from_str("mac"), addr));
        proof {
            assert(addresses@ =~= orig.skip(i + 1));
        }
        i = i + 1;
    }
    out
}

/// A borrowed list of tagged connection descriptors, renderable for a log
/// line.
pub struct Display<'a>(pub &'a Vec<(String, String)>);

/// The rendering of the first `i` descriptors: `key=value`, comma
/// separated.
pub open spec fn render_fold(v: Seq<(String, String)>, i: int) -> Seq<char>
    decreases i,
{
    if i <= 0 {
        Seq::empty()
    } else {
        let piece = v[i - 1].0@ + seq!['='] + v[i - 1].1@;
        if i == 1 {
            piece
        } else {
            render_fold(v, i - 1) + seq![',', ' '] + piece
        }
    }
}

impl<'a> Display<'a> {
    /// Renders the descriptors as one comma-separated line.
    pub fn render(&self) -> (r: String)
        ensures
            r@ == render_fold(self.0@, self.0@.len() as int),
    {
        let n = self.0.len();
        let mut out = String::new();
        let mut i: usize = 0;
        while i < n
            invariant
                n == self.0@.len(),
                0 <= i <= n,
                out@ == render_fold(self.0@, i as int),
            decreases n - i,
        {
            if i > 0 {
                crate::strutil::append_str(&mut out, ", ");
                proof {
                    reveal_strlit(", ");
                    assert(", "@ =~= seq![',', ' ']);
                }
            }
            crate::strutil::append_str(&mut out, self.0[i].0.as_str());
            crate::strutil::push_char(&mut out, '=');
            crate::strutil::append_str(&mut out, self.0[i].1.as_str());
            proof {
                assert(out@ =~= render_fold(self.0@, i + 1));
            }
            i = i + 1;
        }
        out
    }
}

} // verus!
