//! Routes of interrupt lines to interrupt controllers and MSIs.
use vstd::prelude::*;

verus! {

/// Whether a CPU can run.
#[derive(Clone, Copy, Debug, PartialEq, Eq, Structural)]
pub enum VcpuRunState {
    Runnable,
    Interrupted,
}

/// Interrupt controllers that a line can go to.
#[derive(Clone, Copy, Debug, PartialEq, Eq, Structural)]
pub enum IrqSourceChip {
    PicPrimary,
    PicSecondary,
    Ioapic,
    Gic,
    Aia,
}

/// Where a line goes.
#[derive(Clone, Copy, Debug, PartialEq, Eq, Structural)]
pub enum IrqSource {
    Irqchip { chip: IrqSourceChip, pin: u32 },
    Msi { address: u64, data: u32 },
}

/// The route of a global system interrupt.
#[derive(Clone, Copy, Debug, PartialEq, Eq, Structural)]
pub struct IrqRoute {
    pub gsi: u32,
    pub source: IrqSource,
}

impl IrqRoute {
    /// The route of a line to the GIC pin of the same number.
    pub open spec fn gic(irq: u32) -> IrqRoute {
        IrqRoute { gsi: irq, source: IrqSource::Irqchip { chip: IrqSourceChip::Gic, pin: irq } }
    }

    /// The route of a line to the IOAPIC pin of the same number.
    pub open spec fn ioapic(irq: u32) -> IrqRoute {
        IrqRoute { gsi: irq, source: IrqSource::Irqchip { chip: IrqSourceChip::Ioapic, pin: irq } }
    }

    /// The route of a line to a PIC, which has eight pins.
    pub open spec fn pic(chip: IrqSourceChip, irq: u32) -> IrqRoute {
        IrqRoute { gsi: irq, source: IrqSource::Irqchip { chip, pin: irq % 8 } }
    }

    pub fn gic_irq_route(irq: u32) -> (r: IrqRoute)
        ensures
            r == IrqRoute::gic(irq),
    {
        IrqRoute { gsi: irq, source: IrqSource::Irqchip { chip: IrqSourceChip::Gic, pin: irq } }
    }

    pub fn ioapic_irq_route(irq: u32) -> (r: IrqRoute)
        ensures
            r == IrqRoute::ioapic(irq),
    {
        IrqRoute { gsi: irq, source: IrqSource::Irqchip { chip: IrqSourceChip::Ioapic, pin: irq } }
    }

    pub fn pic_irq_route(chip: IrqSourceChip, irq: u32) -> (r: IrqRoute)
        ensures
            r == IrqRoute::pic(chip, irq),
    {
        IrqRoute { gsi: irq, source: IrqSource::Irqchip { chip, pin: irq % 8 } }
    }

    pub open spec fn is_msi(self) -> bool {
        self.source is Msi
    }
}

/// Two routes of one line conflict if both are MSIs or both go to the same
/// interrupt controller.
pub open spec fn conflict(a: IrqRoute, b: IrqRoute) -> bool {
    &&& a.gsi == b.gsi
    &&& match (a.source, b.source) {
        (IrqSource::Msi { address: _, data: _ }, IrqSource::Msi { address: _, data: _ }) => true,
        (
            IrqSource::Irqchip { chip: x, pin: _ },
            IrqSource::Irqchip { chip: y, pin: _ },
        ) => x == y,
        _ => false,
    }
}

/// Whether two routes conflict.
pub fn routes_conflict(route: &IrqRoute, other: &IrqRoute) -> (r: bool)
    ensures
        r == conflict(*route, *other),
{
    if route.gsi != other.gsi {
        return false;
    }
    match (route.source, other.source) {
        (IrqSource::Msi { address: _, data: _ }, IrqSource::Msi { address: _, data: _ }) => true,
        (
            IrqSource::Irqchip { chip: x, pin: _ },
            IrqSource::Irqchip { chip: y, pin: _ },
        ) => x == y,
        _ => false,
    }
}

/// One more element under a filter.
pub proof fn filter_step<A>(s: Seq<A>, i: int, p: spec_fn(A) -> bool)
    requires
        0 <= i < s.len(),
    ensures
        s.take(i + 1).filter(p) == (if p(s[i]) {
            s.take(i).filter(p).push(s[i])
        } else {
            s.take(i).filter(p)
        }),
{
    reveal(Seq::filter);
    assert(s.take(i + 1).drop_last() =~= s.take(i));
}

pub proof fn filter_start<A>(s: Seq<A>, p: spec_fn(A) -> bool)
    ensures
        s.take(0).filter(p) == Seq::<A>::empty(),
        s.take(s.len() as int) == s,
{
    reveal(Seq::filter);
    assert(s.take(s.len() as int) =~= s);
}

/// The routes that do not conflict with `route`, and then `route`.
pub open spec fn routed(routes: Seq<IrqRoute>, route: IrqRoute) -> Seq<IrqRoute> {
    routes.filter(|r: IrqRoute| !conflict(r, route)).push(route)
}

/// The MSIs among `routes`.
pub open spec fn msis(routes: Seq<IrqRoute>) -> Seq<IrqRoute> {
    routes.filter(|r: IrqRoute| r.is_msi())
}

/// Replaces the routes that conflict with `route` by it.
pub fn replace_conflicting(routes: &Vec<IrqRoute>, route: IrqRoute) -> (r: Vec<IrqRoute>)
    ensures
        r@ == routed(routes@, route),
{
    let ghost p = |r: IrqRoute| !conflict(r, route);
    let mut kept: Vec<IrqRoute> = Vec::new();
    let mut i: usize = 0;
    proof {
        filter_start(routes@, p);
    }
    while i < routes.len()
        invariant
            i <= routes@.len(),
            p == (|r: IrqRoute| !conflict(r, route)),
            kept@ == routes@.take(i as int).filter(p),
        decreases routes.len() - i,
    {
        proof {
            filter_step(routes@, i as int, p);
        }
        if !routes_conflict(&routes[i], &route) {
            kept.push(routes[i]);
        }
        i = i + 1;
    }
    proof {
        filter_start(routes@, p);
    }
    kept.push(route);
    kept
}

/// The MSIs among `routes`.
pub fn msi_routes(routes: &[IrqRoute]) -> (r: Vec<IrqRoute>)
    ensures
        r@ == msis(routes@),
{
    let ghost p = |r: IrqRoute| r.is_msi();
    let mut kept: Vec<IrqRoute> = Vec::new();
    let mut i: usize = 0;
    proof {
        filter_start(routes@, p);
    }
    while i < routes.len()
        invariant
            i <= routes@.len(),
            p == (|r: IrqRoute| r.is_msi()),
            kept@ == routes@.take(i as int).filter(p),
        decreases routes.len() - i,
    {
        proof {
            filter_step(routes@, i as int, p);
        }
        match routes[i].source {
            IrqSource::Msi { address: _, data: _ } => {
                kept.push(routes[i]);
            },
            _ => {},
        }
        i = i + 1;
    }
    proof {
        filter_start(routes@, p);
    }
    kept
}

/// Copies a list of routes.
pub fn copy_routes(routes: &[IrqRoute]) -> (r: Vec<IrqRoute>)
    ensures
        r@ == routes@,
{
    let mut out: Vec<IrqRoute> = Vec::new();
    let mut i: usize = 0;
    while i < routes.len()
        invariant
            i <= routes@.len(),
            out@ == routes@.take(i as int),
        decreases routes.len() - i,
    {
        out.push(routes[i]);
        i = i + 1;
        assert(out@ =~= routes@.take(i as int));
    }
    assert(out@ =~= routes@);
    out
}

/// Conflict does not depend on the order of the two routes.
pub proof fn conflict_is_symmetric(a: IrqRoute, b: IrqRoute)
    ensures
        conflict(a, b) == conflict(b, a),
        conflict(a, a),
{
}

/// A new route is in place afterwards, no other route conflicts with it, and
/// every route that does not conflict with it stays.
pub proof fn route_replaces_conflicts(routes: Seq<IrqRoute>, route: IrqRoute, other: IrqRoute)
    ensures
        routed(routes, route).last() == route,
        routed(routes, route).drop_last().contains(other) ==> !conflict(other, route),
        routes.contains(other) && !conflict(other, route) ==> routed(routes, route).contains(other),
{
    let p = |r: IrqRoute| !conflict(r, route);
    let kept = routes.filter(p);
    assert(routed(routes, route).drop_last() =~= kept);
    if kept.contains(other) {
        let i = choose|i: int| 0 <= i < kept.len() && kept[i] == other;
        routes.lemma_filter_pred(p, i);
    }
    if routes.contains(other) && !conflict(other, route) {
        let i = choose|i: int| 0 <= i < routes.len() && routes[i] == other;
        assert(p(routes[i]));
        routes.lemma_filter_contains(p, i);
        let j = choose|j: int| 0 <= j < kept.len() && kept[j] == other;
        assert(routed(routes, route)[j] == other);
    }
}

/// A line goes to the pin of its own number at a GIC or an IOAPIC. The sixteen
/// lines of the PICs go to the eight pins of the first one and then to those of
/// the second.
pub proof fn routes_name_their_pins(irq: u32, chip: IrqSourceChip)
    ensures
        IrqRoute::gic(irq).gsi == irq,
        IrqRoute::gic(irq).source == (IrqSource::Irqchip { chip: IrqSourceChip::Gic, pin: irq }),
        IrqRoute::ioapic(irq).gsi == irq,
        IrqRoute::ioapic(irq).source == (IrqSource::Irqchip {
            chip: IrqSourceChip::Ioapic,
            pin: irq,
        }),
        IrqRoute::pic(chip, irq).gsi == irq,
        irq < 8 ==> IrqRoute::pic(chip, irq).source == (IrqSource::Irqchip { chip, pin: irq }),
        8 <= irq < 16 ==> IrqRoute::pic(chip, irq).source == (IrqSource::Irqchip {
            chip,
            pin: (irq - 8) as u32,
        }),
{
}

/// Routes of different lines never conflict. Those of one line do where both are
/// MSIs or both go to the same chip, whatever the pin, and not where one is an MSI
/// and the other goes to a chip, or the chips differ.
pub proof fn conflicts_are_within_a_line_and_chip(
    a: IrqRoute,
    b: IrqRoute,
    x: IrqSourceChip,
    y: IrqSourceChip,
    p: u32,
    q: u32,
)
    ensures
        a.gsi != b.gsi ==> !conflict(a, b),
        a.gsi == b.gsi && a.source is Msi && b.source is Msi ==> conflict(a, b),
        a.gsi == b.gsi && a.source is Msi && b.source is Irqchip ==> !conflict(a, b),
        a.gsi == b.gsi && a.source == (IrqSource::Irqchip { chip: x, pin: p }) && b.source == (
        IrqSource::Irqchip { chip: y, pin: q }) ==> (conflict(a, b) <==> x == y),
{
}

/// The MSI routes are those of the routes that are MSIs, and no others.
pub proof fn msi_routes_are_the_msis(routes: Seq<IrqRoute>, r: IrqRoute)
    ensures
        msis(routes).contains(r) <==> routes.contains(r) && r.source is Msi,
{
    let p = |r: IrqRoute| r.is_msi();
    let kept = routes.filter(p);
    if kept.contains(r) {
        let i = choose|i: int| 0 <= i < kept.len() && kept[i] == r;
        routes.lemma_filter_pred(p, i);
        routes.lemma_filter_contains_rev(p, r);
    }
    if routes.contains(r) && r.source is Msi {
        let i = choose|i: int| 0 <= i < routes.len() && routes[i] == r;
        assert(p(routes[i]));
        routes.lemma_filter_contains(p, i);
    }
}

} // verus!
