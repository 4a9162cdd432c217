//! Ownership of the dialog's fonts and brushes: what is created, what is
//! borrowed, and what is deleted, counted over the log of backend calls.

use vstd::prelude::*;
use vstd::multiset::Multiset;

use super::design::{palette_of, scale_logical, scaled_size, DialogPalette, DialogTheme, ROW_HEIGHT};
use super::row_paint::ProfileRowPaintResources;

verus! {

/// The font family asked for, the variable face first.
#[derive(Clone, Copy, Debug, PartialEq, Eq, Structural)]
pub enum DialogFontFace {
    SegoeUiVariable,
    SegoeUi,
}

/// One request to the graphics backend, with the handle it answered; a
/// handle of zero is a failed creation.
#[derive(Clone, Copy, Debug, PartialEq, Eq, Structural)]
pub enum ResourceCall {
    CreateFont { dpi: u32, heading: bool, face: DialogFontFace, handle: usize },
    StockFont { handle: usize },
    CreateBrush { colorref: u32, handle: usize },
    Delete { handle: usize },
}

/// Creates and deletes the dialog's graphics objects.
///
/// A zero handle means that a creation failed. The stock font is borrowed
/// from the system and is never handed to `delete_object`.
pub trait DialogResourceBackend {
    /// The requests so far, in order.
    spec fn resource_calls(&self) -> Seq<ResourceCall>;

    fn create_font(&mut self, dpi: u32, heading: bool, face: DialogFontFace) -> (handle: usize)
        ensures
            final(self).resource_calls() == old(self).resource_calls().push(
                ResourceCall::CreateFont { dpi, heading, face, handle },
            ),
    ;

    fn stock_font(&mut self) -> (handle: usize)
        ensures
            final(self).resource_calls() == old(self).resource_calls().push(ResourceCall::StockFont { handle }),
    ;

    fn create_brush(&mut self, colorref: u32) -> (handle: usize)
        ensures
            final(self).resource_calls() == old(self).resource_calls().push(
                ResourceCall::CreateBrush { colorref, handle },
            ),
    ;

    fn delete_object(&mut self, handle: usize)
        requires
            handle != 0,
        ensures
            final(self).resource_calls() == old(self).resource_calls().push(ResourceCall::Delete { handle }),
    ;
}

/// The handle that a call names or answered.
pub open spec fn call_handle(call: ResourceCall) -> usize {
    match call {
        ResourceCall::CreateFont { handle, .. } => handle,
        ResourceCall::StockFont { handle } => handle,
        ResourceCall::CreateBrush { handle, .. } => handle,
        ResourceCall::Delete { handle } => handle,
    }
}

/// The handles alive after `call`, given those alive before: a successful
/// creation adds its handle, a deletion takes one away.
pub open spec fn live_step(live: Multiset<usize>, call: ResourceCall) -> Multiset<usize> {
    match call {
        ResourceCall::CreateFont { handle, .. } => if handle != 0 { live.insert(handle) } else { live },
        ResourceCall::CreateBrush { handle, .. } => if handle != 0 { live.insert(handle) } else { live },
        ResourceCall::StockFont { .. } => live,
        ResourceCall::Delete { handle } => live.remove(handle),
    }
}

/// Whether `call` deletes only a handle that is alive.
pub open spec fn deletes_live_handle(live: Multiset<usize>, call: ResourceCall) -> bool {
    match call {
        ResourceCall::Delete { handle } => live.count(handle) > 0,
        _ => true,
    }
}

/// The handles alive after `calls`, starting from `live`.
pub open spec fn live_after(live: Multiset<usize>, calls: Seq<ResourceCall>) -> Multiset<usize>
    decreases calls.len(),
{
    if calls.len() == 0 {
        live
    } else {
        live_after(live_step(live, calls[0]), calls.drop_first())
    }
}

/// Whether every deletion in `calls`, starting from `live`, deletes a handle
/// that was created and is still alive: nothing borrowed, nothing twice.
pub open spec fn deletes_only_live(live: Multiset<usize>, calls: Seq<ResourceCall>) -> bool
    decreases calls.len(),
{
    calls.len() == 0 || (deletes_live_handle(live, calls[0]) && deletes_only_live(
        live_step(live, calls[0]),
        calls.drop_first(),
    ))
}

/// The handles that `calls` created.
pub open spec fn created_handles(calls: Seq<ResourceCall>) -> Multiset<usize>
    decreases calls.len(),
{
    if calls.len() == 0 {
        Multiset::empty()
    } else {
        let rest = created_handles(calls.drop_first());
        match calls[0] {
            ResourceCall::CreateFont { handle, .. } => if handle != 0 { rest.insert(handle) } else { rest },
            ResourceCall::CreateBrush { handle, .. } => if handle != 0 { rest.insert(handle) } else { rest },
            _ => rest,
        }
    }
}

/// The handles that `calls` deleted.
pub open spec fn deleted_handles(calls: Seq<ResourceCall>) -> Multiset<usize>
    decreases calls.len(),
{
    if calls.len() == 0 {
        Multiset::empty()
    } else {
        let rest = deleted_handles(calls.drop_first());
        match calls[0] {
            ResourceCall::Delete { handle } => rest.insert(handle),
            _ => rest,
        }
    }
}

/// Counting the handles of two logs in a row is counting the first, then
/// the second from where the first left off.
pub proof fn lemma_live_after_append(live: Multiset<usize>, a: Seq<ResourceCall>, b: Seq<ResourceCall>)
    ensures
        live_after(live, a + b) == live_after(live_after(live, a), b),
        deletes_only_live(live, a + b) == (deletes_only_live(live, a) && deletes_only_live(
            live_after(live, a),
            b,
        )),
    decreases a.len(),
{
    if a.len() == 0 {
        assert(a + b =~= b);
    } else {
        assert((a + b).drop_first() =~= a.drop_first() + b);
        lemma_live_after_append(live_step(live, a[0]), a.drop_first(), b);
    }
}

/// A log that deletes only live handles leaves alive what it created and
/// did not delete: alive plus deleted is created, starting from nothing.
pub proof fn lemma_live_accounts_for_calls(live: Multiset<usize>, calls: Seq<ResourceCall>)
    requires
        deletes_only_live(live, calls),
    ensures
        live_after(live, calls).add(deleted_handles(calls)) == live.add(created_handles(calls)),
    decreases calls.len(),
{
    if calls.len() > 0 {
        let next = live_step(live, calls[0]);
        lemma_live_accounts_for_calls(next, calls.drop_first());
        let rest = calls.drop_first();
        match calls[0] {
            ResourceCall::Delete { handle } => {
                let after = live_after(next, rest);
                assert(live_after(live, calls) == after);
                assert(deleted_handles(calls) == deleted_handles(rest).insert(handle));
                assert(after.add(deleted_handles(rest).insert(handle)) =~= after.add(deleted_handles(rest)).insert(handle));
                assert(next.add(created_handles(rest)).insert(handle) =~= next.insert(handle).add(created_handles(rest)));
                assert(next.insert(handle) =~= live);
                assert(created_handles(calls) == created_handles(rest));
            },
            ResourceCall::CreateFont { handle, .. } => {
                assert(live_after(live, calls).add(deleted_handles(calls)) =~= live.add(
                    created_handles(calls),
                ));
            },
            ResourceCall::CreateBrush { handle, .. } => {
                assert(live_after(live, calls).add(deleted_handles(calls)) =~= live.add(
                    created_handles(calls),
                ));
            },
            ResourceCall::StockFont { .. } => {},
        }
    }
}

/// The fonts and brushes of one dialog look, with which of them it owns: a
/// borrowed stock font and a failed (zero) creation are not owned.
#[derive(Clone, Copy, Debug, PartialEq, Eq, Structural)]
pub struct DialogResourceSet {
    pub body_font: usize,
    pub heading_font: usize,
    pub background_brush: usize,
    pub surface_brush: usize,
    pub owns_body_font: bool,
    pub owns_heading_font: bool,
    pub owns_background_brush: bool,
    pub owns_surface_brush: bool,
}

/// The handle as an owned multiset: itself when owned and not zero.
pub open spec fn owned_handle(handle: usize, owned: bool) -> Multiset<usize> {
    if owned && handle != 0 {
        Multiset::singleton(handle)
    } else {
        Multiset::empty()
    }
}

/// The handles a set must delete.
pub open spec fn owned_handles(set: DialogResourceSet) -> Multiset<usize> {
    owned_handle(set.body_font, set.owns_body_font).add(
        owned_handle(set.heading_font, set.owns_heading_font),
    ).add(owned_handle(set.background_brush, set.owns_background_brush)).add(
        owned_handle(set.surface_brush, set.owns_surface_brush),
    )
}

/// The deletion of a handle, when it is owned and not zero.
pub open spec fn delete_call(handle: usize, owned: bool) -> Seq<ResourceCall> {
    if owned && handle != 0 {
        seq![ResourceCall::Delete { handle }]
    } else {
        Seq::empty()
    }
}

/// Releasing a set deletes its owned handles in the order body font,
/// heading font, background brush, surface brush.
pub open spec fn release_calls(set: DialogResourceSet) -> Seq<ResourceCall> {
    delete_call(set.body_font, set.owns_body_font) + delete_call(set.heading_font, set.owns_heading_font)
        + delete_call(set.background_brush, set.owns_background_brush) + delete_call(
        set.surface_brush,
        set.owns_surface_brush,
    )
}

/// Whether both brushes were created and are owned.
pub open spec fn complete_brush_set(set: DialogResourceSet) -> bool {
    set.owns_background_brush && set.owns_surface_brush && set.background_brush != 0 && set.surface_brush
        != 0
}

impl DialogResourceSet {
    /// Whether the set owns both of its brushes.
    pub fn has_complete_brush_set(&self) -> (r: bool)
        ensures
            r == complete_brush_set(*self),
    {
        self.owns_background_brush && self.owns_surface_brush && self.background_brush != 0
            && self.surface_brush != 0
    }
}

proof fn lemma_delete_one(rest: Multiset<usize>, handle: usize, owned: bool)
    ensures
        deletes_only_live(rest.add(owned_handle(handle, owned)), delete_call(handle, owned)),
        live_after(rest.add(owned_handle(handle, owned)), delete_call(handle, owned)) == rest,
{
    let live = rest.add(owned_handle(handle, owned));
    let calls = delete_call(handle, owned);
    reveal_with_fuel(live_after, 2);
    reveal_with_fuel(deletes_only_live, 2);
    if owned && handle != 0 {
        assert(calls.drop_first() =~= Seq::<ResourceCall>::empty());
        assert(calls[0] == ResourceCall::Delete { handle });
        assert(live.count(handle) > 0);
        assert(live.remove(handle) =~= rest);
    } else {
        assert(calls.len() == 0);
        assert(live =~= rest);
    }
}

/// Releasing a set deletes only live handles, and exactly the ones it owns.
pub proof fn lemma_release_accounting(rest: Multiset<usize>, set: DialogResourceSet)
    ensures
        deletes_only_live(rest.add(owned_handles(set)), release_calls(set)),
        live_after(rest.add(owned_handles(set)), release_calls(set)) == rest,
{
    let o1 = owned_handle(set.body_font, set.owns_body_font);
    let o2 = owned_handle(set.heading_font, set.owns_heading_font);
    let o3 = owned_handle(set.background_brush, set.owns_background_brush);
    let o4 = owned_handle(set.surface_brush, set.owns_surface_brush);
    let d1 = delete_call(set.body_font, set.owns_body_font);
    let d2 = delete_call(set.heading_font, set.owns_heading_font);
    let d3 = delete_call(set.background_brush, set.owns_background_brush);
    let d4 = delete_call(set.surface_brush, set.owns_surface_brush);
    let r4 = rest;
    let r3 = rest.add(o4);
    let r2 = r3.add(o3);
    let r1 = r2.add(o2);
    assert(rest.add(owned_handles(set)) =~= r1.add(o1));
    lemma_delete_one(r1, set.body_font, set.owns_body_font);
    lemma_delete_one(r2, set.heading_font, set.owns_heading_font);
    lemma_delete_one(r3, set.background_brush, set.owns_background_brush);
    lemma_delete_one(r4, set.surface_brush, set.owns_surface_brush);
    lemma_live_after_append(r1.add(o1), d1, d2);
    lemma_live_after_append(r1.add(o1), d1 + d2, d3);
    lemma_live_after_append(r1.add(o1), d1 + d2 + d3, d4);
}

/// Deletes the owned handles of a set exactly once each, skipping zero
/// handles and the borrowed stock font.
pub fn release_dialog_resource_set<B: DialogResourceBackend>(backend: &mut B, resources: DialogResourceSet)
    ensures
        final(backend).resource_calls() == old(backend).resource_calls() + release_calls(resources),
{
    let ghost start = backend.resource_calls();
    if resources.owns_body_font && resources.body_font != 0 {
        backend.delete_object(resources.body_font);
    }
    assert(backend.resource_calls() =~= start + delete_call(resources.body_font, resources.owns_body_font));
    let ghost s1 = backend.resource_calls();
    if resources.owns_heading_font && resources.heading_font != 0 {
        backend.delete_object(resources.heading_font);
    }
    assert(backend.resource_calls() =~= s1 + delete_call(resources.heading_font, resources.owns_heading_font));
    let ghost s2 = backend.resource_calls();
    if resources.owns_background_brush && resources.background_brush != 0 {
        backend.delete_object(resources.background_brush);
    }
    assert(backend.resource_calls() =~= s2 + delete_call(
        resources.background_brush,
        resources.owns_background_brush,
    ));
    let ghost s3 = backend.resource_calls();
    if resources.owns_surface_brush && resources.surface_brush != 0 {
        backend.delete_object(resources.surface_brush);
    }
    assert(backend.resource_calls() =~= s3 + delete_call(resources.surface_brush, resources.owns_surface_brush));
    assert(backend.resource_calls() =~= start + release_calls(resources));
}

/// Whether `after` continues the log `before`.
pub open spec fn log_extends(before: Seq<ResourceCall>, after: Seq<ResourceCall>) -> bool {
    after.len() >= before.len() && after.take(before.len() as int) == before
}

/// The calls that `after` made past the log `before`.
pub open spec fn appended(before: Seq<ResourceCall>, after: Seq<ResourceCall>) -> Seq<ResourceCall> {
    after.skip(before.len() as int)
}

/// How many calls the creation of one font makes, read off its answers:
/// one when the variable face was created, two when Segoe UI was, three
/// when the stock font had to be borrowed.
pub open spec fn font_run_len(calls: Seq<ResourceCall>) -> int {
    if call_handle(calls[0]) != 0 {
        1
    } else if call_handle(calls[1]) != 0 {
        2
    } else {
        3
    }
}

/// Whether `calls` begins with the creation of a dialog font: the variable
/// face first, Segoe UI only when that failed, and the stock font only when
/// both failed.
pub open spec fn font_run(calls: Seq<ResourceCall>, dpi: u32, heading: bool) -> bool {
    let n = font_run_len(calls);
    &&& calls.len() >= n
    &&& calls[0] == ResourceCall::CreateFont {
        dpi,
        heading,
        face: DialogFontFace::SegoeUiVariable,
        handle: call_handle(calls[0]),
    }
    &&& n >= 2 ==> calls[1] == ResourceCall::CreateFont {
        dpi,
        heading,
        face: DialogFontFace::SegoeUi,
        handle: call_handle(calls[1]),
    }
    &&& n == 3 ==> calls[2] == ResourceCall::StockFont { handle: call_handle(calls[2]) }
}

/// The font a creation run ends with, and whether the dialog owns it: a
/// created face is owned, the stock font is borrowed.
pub open spec fn font_result(calls: Seq<ResourceCall>) -> (usize, bool) {
    if font_run_len(calls) == 3 {
        (call_handle(calls[2]), false)
    } else {
        (call_handle(calls[font_run_len(calls) - 1]), true)
    }
}

proof fn lemma_font_run_prefix(a: Seq<ResourceCall>, b: Seq<ResourceCall>, dpi: u32, heading: bool)
    requires
        a.len() == font_run_len(a),
        font_run(a, dpi, heading),
    ensures
        font_run_len(a + b) == a.len(),
        font_run(a + b, dpi, heading),
        font_result(a + b) == font_result(a),
        (a + b).skip(a.len() as int) == b,
        (a + b).take(a.len() as int) == a,
{
    assert((a + b)[0] == a[0]);
    if a.len() >= 2 {
        assert((a + b)[1] == a[1]);
    }
    if a.len() == 3 {
        assert((a + b)[2] == a[2]);
    }
    assert((a + b).skip(a.len() as int) =~= b);
    assert((a + b).take(a.len() as int) =~= a);
}

/// A font creation run deletes nothing and leaves its font alive when it
/// owns it.
pub proof fn lemma_font_run_accounting(live: Multiset<usize>, calls: Seq<ResourceCall>, dpi: u32, heading: bool)
    requires
        calls.len() == font_run_len(calls),
        font_run(calls, dpi, heading),
    ensures
        deletes_only_live(live, calls),
        live_after(live, calls) == live.add(owned_handle(font_result(calls).0, font_result(calls).1)),
{
    reveal_with_fuel(live_after, 4);
    reveal_with_fuel(deletes_only_live, 4);
    let r = font_result(calls);
    if calls.len() == 1 {
        assert(calls.drop_first().len() == 0);
        assert(live.insert(r.0) =~= live.add(owned_handle(r.0, r.1)));
    } else if calls.len() == 2 {
        assert(calls.drop_first().drop_first().len() == 0);
        assert(calls.drop_first()[0] == calls[1]);
        assert(live.insert(r.0) =~= live.add(owned_handle(r.0, r.1)));
    } else {
        assert(calls.drop_first().drop_first().drop_first().len() == 0);
        assert(calls.drop_first()[0] == calls[1]);
        assert(calls.drop_first().drop_first()[0] == calls[2]);
        assert(live =~= live.add(owned_handle(r.0, r.1)));
    }
}

/// Creates a dialog font: the variable face, then Segoe UI, and when both
/// fail the system's stock font, which is borrowed and never deleted.
pub fn create_dialog_font<B: DialogResourceBackend>(backend: &mut B, dpi: u32, heading: bool) -> (r: (usize, bool))
    ensures
        log_extends(old(backend).resource_calls(), final(backend).resource_calls()),
        appended(old(backend).resource_calls(), final(backend).resource_calls()).len() == font_run_len(
            appended(old(backend).resource_calls(), final(backend).resource_calls()),
        ),
        font_run(appended(old(backend).resource_calls(), final(backend).resource_calls()), dpi, heading),
        r == font_result(appended(old(backend).resource_calls(), final(backend).resource_calls())),
{
    let ghost start = backend.resource_calls();
    let first = backend.create_font(dpi, heading, DialogFontFace::SegoeUiVariable);
    let ghost c1 = ResourceCall::CreateFont { dpi, heading, face: DialogFontFace::SegoeUiVariable, handle: first };
    if first != 0 {
        assert(backend.resource_calls().take(start.len() as int) =~= start);
        assert(appended(start, backend.resource_calls()) =~= seq![c1]);
        return (first, true);
    }
    let second = backend.create_font(dpi, heading, DialogFontFace::SegoeUi);
    let ghost c2 = ResourceCall::CreateFont { dpi, heading, face: DialogFontFace::SegoeUi, handle: second };
    if second != 0 {
        assert(backend.resource_calls().take(start.len() as int) =~= start);
        assert(appended(start, backend.resource_calls()) =~= seq![c1, c2]);
        return (second, true);
    }
    let stock = backend.stock_font();
    assert(backend.resource_calls().take(start.len() as int) =~= start);
        assert(appended(start, backend.resource_calls()) =~= seq![c1, c2, ResourceCall::StockFont { handle: stock }]);
    (stock, false)
}

/// Whether `calls` is exactly the allocation of `set` at `dpi` in
/// `palette`: the body font, the heading font, then the background and the
/// surface brush in the palette's colors; a brush is owned when it was
/// created.
pub open spec fn allocation_run(calls: Seq<ResourceCall>, dpi: u32, palette: DialogPalette, set: DialogResourceSet) -> bool {
    let n1 = font_run_len(calls);
    let rest = calls.skip(n1);
    let n2 = font_run_len(rest);
    &&& font_run(calls, dpi, false)
    &&& (set.body_font, set.owns_body_font) == font_result(calls)
    &&& font_run(rest, dpi, true)
    &&& (set.heading_font, set.owns_heading_font) == font_result(rest)
    &&& rest.skip(n2) == seq![
        ResourceCall::CreateBrush { colorref: palette.background.colorref, handle: set.background_brush },
        ResourceCall::CreateBrush { colorref: palette.surface.colorref, handle: set.surface_brush },
    ]
    &&& set.owns_background_brush == (set.background_brush != 0)
    &&& set.owns_surface_brush == (set.surface_brush != 0)
}

/// An allocation deletes nothing and leaves alive exactly what its set owns.
#[verifier::spinoff_prover]
pub proof fn lemma_allocation_accounting(
    live: Multiset<usize>,
    calls: Seq<ResourceCall>,
    dpi: u32,
    palette: DialogPalette,
    set: DialogResourceSet,
)
    requires
        allocation_run(calls, dpi, palette, set),
    ensures
        deletes_only_live(live, calls),
        live_after(live, calls) == live.add(owned_handles(set)),
{
    let n1 = font_run_len(calls);
    let a = calls.take(n1);
    let rest = calls.skip(n1);
    let n2 = font_run_len(rest);
    let b = rest.take(n2);
    let brushes = rest.skip(n2);
    lemma_font_run_take(calls, dpi, false);
    lemma_font_run_take(rest, dpi, true);
    assert(calls =~= a + (b + brushes));
    lemma_font_run_accounting(live, a, dpi, false);
    let l1 = live.add(owned_handle(set.body_font, set.owns_body_font));
    lemma_font_run_accounting(l1, b, dpi, true);
    let l2 = l1.add(owned_handle(set.heading_font, set.owns_heading_font));
    lemma_live_after_append(live, a, b + brushes);
    lemma_live_after_append(l1, b, brushes);
    let x = brushes[0];
    let y = brushes[1];
    assert(brushes =~= seq![x] + seq![y]);
    lemma_live_after_append(l2, seq![x], seq![y]);
    lemma_live_single(l2, x);
    let l3 = l2.add(owned_handle(set.background_brush, set.owns_background_brush));
    assert(live_step(l2, x) =~= l3);
    lemma_live_single(l3, y);
    assert(live_step(l3, y) =~= l3.add(owned_handle(set.surface_brush, set.owns_surface_brush)));
    assert(live.add(owned_handles(set)) =~= l3.add(owned_handle(set.surface_brush, set.owns_surface_brush)));
}

proof fn lemma_live_single(live: Multiset<usize>, call: ResourceCall)
    ensures
        live_after(live, seq![call]) == live_step(live, call),
        deletes_only_live(live, seq![call]) == deletes_live_handle(live, call),
{
    reveal_with_fuel(live_after, 2);
    reveal_with_fuel(deletes_only_live, 2);
    assert(seq![call].drop_first() =~= Seq::<ResourceCall>::empty());
}

/// Creates the fonts and brushes of one dialog look; a brush that could not
/// be created is zero and not owned.
pub fn allocate_dialog_resources<B: DialogResourceBackend>(backend: &mut B, dpi: u32, palette: DialogPalette) -> (set: DialogResourceSet)
    ensures
        log_extends(old(backend).resource_calls(), final(backend).resource_calls()),
        allocation_run(appended(old(backend).resource_calls(), final(backend).resource_calls()), dpi, palette, set),
{
    let ghost start = backend.resource_calls();
    let (body_font, owns_body_font) = create_dialog_font(backend, dpi, false);
    let ghost c1 = backend.resource_calls();
    let ghost a = appended(start, c1);
    let (heading_font, owns_heading_font) = create_dialog_font(backend, dpi, true);
    let ghost c2 = backend.resource_calls();
    let ghost b = appended(c1, c2);
    let background_brush = backend.create_brush(palette.background.colorref);
    let surface_brush = backend.create_brush(palette.surface.colorref);
    let set = DialogResourceSet {
        body_font,
        heading_font,
        background_brush,
        surface_brush,
        owns_body_font,
        owns_heading_font,
        owns_background_brush: background_brush != 0,
        owns_surface_brush: surface_brush != 0,
    };
    proof {
        let brushes = seq![
            ResourceCall::CreateBrush { colorref: palette.background.colorref, handle: background_brush },
            ResourceCall::CreateBrush { colorref: palette.surface.colorref, handle: surface_brush },
        ];
        let fin = backend.resource_calls();
        assert(c1 =~= start + a);
        assert(c2 =~= c1 + b);
        assert(fin =~= start + (a + (b + brushes)));
        assert(fin.take(start.len() as int) =~= start);
        assert(appended(start, fin) =~= a + (b + brushes));
        lemma_font_run_prefix(a, b + brushes, dpi, false);
        lemma_font_run_prefix(b, brushes, dpi, true);
    }
    set
}

/// How many calls an allocation makes, read off its answers.
pub open spec fn allocation_len(calls: Seq<ResourceCall>) -> int {
    let n1 = font_run_len(calls);
    n1 + font_run_len(calls.skip(n1)) + 2
}

/// The set an allocation made, read off its answers.
pub open spec fn allocated_set(calls: Seq<ResourceCall>) -> DialogResourceSet {
    let n1 = font_run_len(calls);
    let rest = calls.skip(n1);
    let n2 = font_run_len(rest);
    let body = font_result(calls);
    let heading = font_result(rest);
    let background = call_handle(rest[n2]);
    let surface = call_handle(rest[n2 + 1]);
    DialogResourceSet {
        body_font: body.0,
        heading_font: heading.0,
        background_brush: background,
        surface_brush: surface,
        owns_body_font: body.1,
        owns_heading_font: heading.1,
        owns_background_brush: background != 0,
        owns_surface_brush: surface != 0,
    }
}

proof fn lemma_font_run_take(calls: Seq<ResourceCall>, dpi: u32, heading: bool)
    requires
        font_run(calls, dpi, heading),
    ensures
        font_run_len(calls.take(font_run_len(calls))) == font_run_len(calls),
        font_run(calls.take(font_run_len(calls)), dpi, heading),
        font_result(calls.take(font_run_len(calls))) == font_result(calls),
        calls.take(font_run_len(calls)).len() == font_run_len(calls),
        calls == calls.take(font_run_len(calls)) + calls.skip(font_run_len(calls)),
{
    let n = font_run_len(calls);
    let a = calls.take(n);
    assert(a[0] == calls[0]);
    if n >= 2 {
        assert(a[1] == calls[1]);
    }
    if n == 3 {
        assert(a[2] == calls[2]);
    }
    assert(calls =~= a + calls.skip(n));
}

/// An allocation run followed by other calls still reads as the same
/// allocation.
proof fn lemma_allocation_prefix(a: Seq<ResourceCall>, b: Seq<ResourceCall>, dpi: u32, palette: DialogPalette, set: DialogResourceSet)
    requires
        allocation_run(a, dpi, palette, set),
    ensures
        a.len() == allocation_len(a),
        allocation_len(a + b) == a.len(),
        allocated_set(a) == set,
        allocated_set(a + b) == set,
        (a + b).take(a.len() as int) == a,
        (a + b).skip(a.len() as int) == b,
{
    let n1 = font_run_len(a);
    let rest = a.skip(n1);
    let n2 = font_run_len(rest);
    lemma_font_run_take(a, dpi, false);
    lemma_font_run_take(rest, dpi, true);
    let f1 = a.take(n1);
    let f2 = rest.take(n2);
    let brushes = rest.skip(n2);
    assert(a =~= f1 + (f2 + brushes));
    assert(a + b =~= f1 + ((f2 + brushes) + b));
    lemma_font_run_prefix(f1, (f2 + brushes) + b, dpi, false);
    assert((a + b).skip(n1) =~= f2 + (brushes + b));
    lemma_font_run_prefix(f2, brushes + b, dpi, true);
    assert((f2 + (brushes + b)).skip(n2) =~= brushes + b);
    assert((brushes + b)[0] == brushes[0]);
    assert((brushes + b)[1] == brushes[1]);
    assert(rest[n2] == brushes[0]);
    assert(rest[n2 + 1] == brushes[1]);
    assert((a + b).take(a.len() as int) =~= a);
    assert((a + b).skip(a.len() as int) =~= b);
}

/// The resources of a new look, made but not yet in use.
#[derive(Clone, Copy, Debug, PartialEq, Eq, Structural)]
pub struct StagedDialogVisualResources {
    pub dpi: u32,
    pub palette: DialogPalette,
    pub resources: DialogResourceSet,
}

/// What the dialog's controls are given: the two fonts and whether the
/// look is the dark one.
#[derive(Clone, Copy, Debug, PartialEq, Eq, Structural)]
pub struct DialogVisualSnapshot {
    pub body_font: usize,
    pub heading_font: usize,
    pub dark: bool,
}

/// The snapshot of a set in a palette.
pub open spec fn snapshot_of(set: DialogResourceSet, palette: DialogPalette) -> DialogVisualSnapshot {
    DialogVisualSnapshot {
        body_font: set.body_font,
        heading_font: set.heading_font,
        dark: palette == palette_of(DialogTheme::Dark),
    }
}

/// The handles a staged look owns.
pub open spec fn staged_handles(staged: Option<StagedDialogVisualResources>) -> Multiset<usize> {
    match staged {
        Some(s) => owned_handles(s.resources),
        None => Multiset::empty(),
    }
}

/// What staging a look at `dpi` in `palette` does, given the calls it
/// made, when the current look is at `current_dpi` in `current_palette`:
/// nothing when the look is the same; otherwise one allocation, which is
/// staged when it has both brushes and released at once when it has not.
pub open spec fn staging(
    added: Seq<ResourceCall>,
    current_dpi: u32,
    current_palette: DialogPalette,
    dpi: u32,
    palette: DialogPalette,
    staged: Option<StagedDialogVisualResources>,
) -> bool {
    if current_dpi == dpi && current_palette == palette {
        added.len() == 0 && staged is None
    } else {
        let n = allocation_len(added);
        let set = allocated_set(added);
        &&& added.len() >= n
        &&& allocation_run(added.take(n), dpi, palette, set)
        &&& if complete_brush_set(set) {
            added.len() == n && staged == Some(StagedDialogVisualResources { dpi, palette, resources: set })
        } else {
            added.skip(n) == release_calls(set) && staged is None
        }
    }
}

/// The answer to a request for a new look.
#[derive(Clone, Copy, Debug, PartialEq, Eq, Structural)]
pub enum DialogVisualRequest {
    /// Apply this snapshot to the controls, then finish the update.
    Apply(DialogVisualSnapshot),
    /// An update is under way; the request is kept as its latest one.
    Coalesced,
}

/// How a whole visual update ended.
#[derive(Clone, Copy, Debug, PartialEq, Eq, Structural)]
pub enum DialogVisualUpdateOutcome {
    Applied,
    Coalesced,
}

/// The snapshot shown while a look is staged: the staged one when there is
/// one, else the look in use.
pub open spec fn visual_of(
    staged: Option<StagedDialogVisualResources>,
    active: DialogResourceSet,
    palette: DialogPalette,
) -> DialogVisualSnapshot {
    match staged {
        Some(s) => snapshot_of(s.resources, s.palette),
        None => snapshot_of(active, palette),
    }
}

/// The DPI in use once a staged look is committed.
pub open spec fn committed_dpi(staged: Option<StagedDialogVisualResources>, dpi: u32) -> u32 {
    match staged {
        Some(s) => s.dpi,
        None => dpi,
    }
}

/// The palette in use once a staged look is committed.
pub open spec fn committed_palette(staged: Option<StagedDialogVisualResources>, palette: DialogPalette) -> DialogPalette {
    match staged {
        Some(s) => s.palette,
        None => palette,
    }
}

/// The set in use once a staged look is committed.
pub open spec fn committed_set(staged: Option<StagedDialogVisualResources>, active: DialogResourceSet) -> DialogResourceSet {
    match staged {
        Some(s) => s.resources,
        None => active,
    }
}

/// What committing a staged look deletes: the set it replaces.
pub open spec fn commit_release(staged: Option<StagedDialogVisualResources>, active: DialogResourceSet) -> Seq<ResourceCall> {
    match staged {
        Some(_) => release_calls(active),
        None => Seq::empty(),
    }
}

/// What releasing a staged look deletes.
pub open spec fn staged_release(staged: Option<StagedDialogVisualResources>) -> Seq<ResourceCall> {
    match staged {
        Some(s) => release_calls(s.resources),
        None => Seq::empty(),
    }
}

/// The fonts and brushes of a dialog, which it owns, and the update of its
/// look that may be under way: a new look is staged, applied to the
/// controls, and only then put in place of the old one, which is released.
pub struct DialogVisualResources<B: DialogResourceBackend> {
    dpi: u32,
    palette: DialogPalette,
    active: DialogResourceSet,
    staged: Option<StagedDialogVisualResources>,
    backend: B,
    update_in_progress: bool,
    pending_update: Option<(u32, DialogTheme)>,
    log_start: Ghost<int>,
}

impl<B: DialogResourceBackend> DialogVisualResources<B> {
    pub closed spec fn current_dpi(&self) -> u32 {
        self.dpi
    }

    pub closed spec fn current_palette(&self) -> DialogPalette {
        self.palette
    }

    pub closed spec fn active_set(&self) -> DialogResourceSet {
        self.active
    }

    pub closed spec fn staged_set(&self) -> Option<StagedDialogVisualResources> {
        self.staged
    }

    pub closed spec fn in_progress(&self) -> bool {
        self.update_in_progress
    }

    pub closed spec fn pending(&self) -> Option<(u32, DialogTheme)> {
        self.pending_update
    }

    pub closed spec fn backend_state(&self) -> B {
        self.backend
    }

    /// Where this owner's calls begin in the backend's log.
    pub closed spec fn log_start(&self) -> int {
        self.log_start@
    }

    /// The backend's whole log.
    pub open spec fn calls(&self) -> Seq<ResourceCall> {
        self.backend_state().resource_calls()
    }

    /// The calls made since this owner took the backend.
    pub open spec fn owner_calls(&self) -> Seq<ResourceCall> {
        self.calls().skip(self.log_start())
    }

    /// The handles alive now, counted over this owner's calls.
    pub open spec fn live(&self) -> Multiset<usize> {
        live_after(Multiset::empty(), self.owner_calls())
    }

    /// The owner is sound: it never deleted a handle that was not alive, the
    /// handles alive are exactly those of the active and the staged look, a
    /// staged look exists only during an update and has both brushes, and a
    /// request waits only during an update.
    pub open spec fn wf(&self) -> bool {
        &&& 0 <= self.log_start() <= self.calls().len()
        &&& deletes_only_live(Multiset::empty(), self.owner_calls())
        &&& self.live() == owned_handles(self.active_set()).add(staged_handles(self.staged_set()))
        &&& self.staged_set() is Some ==> self.in_progress() && complete_brush_set(
            self.staged_set()->Some_0.resources,
        )
        &&& !self.in_progress() ==> self.pending() is None
    }

    /// Makes the fonts and brushes for `dpi` and `theme` with `backend`.
    ///
    /// When no font face can be created the stock font is borrowed; a brush
    /// that cannot be created stays zero, and the dialog's background is then
    /// left to Windows.
    pub fn new_with_backend(dpi: u32, theme: DialogTheme, backend: B) -> (r: Self)
        ensures
            r.wf(),
            r.current_dpi() == dpi,
            r.current_palette() == palette_of(theme),
            r.staged_set() is None,
            !r.in_progress(),
            r.log_start() == backend.resource_calls().len(),
            log_extends(backend.resource_calls(), r.calls()),
            allocation_run(r.owner_calls(), dpi, palette_of(theme), r.active_set()),
    {
        let mut backend = backend;
        let ghost start = backend.resource_calls();
        let palette = DialogPalette::for_theme(theme);
        let active = allocate_dialog_resources(&mut backend, dpi, palette);
        proof {
            lemma_allocation_accounting(Multiset::empty(), appended(start, backend.resource_calls()), dpi, palette, active);
            assert(Multiset::<usize>::empty().add(owned_handles(active)).add(staged_handles(None)) =~= owned_handles(active));
        }
        let r = DialogVisualResources {
            dpi,
            palette,
            active,
            staged: None,
            backend,
            update_in_progress: false,
            pending_update: None,
            log_start: Ghost(start.len() as int),
        };
        assert(r.owner_calls() == appended(start, r.calls()));
        assert(0 <= r.log_start() <= r.calls().len());
        assert(deletes_only_live(Multiset::empty(), r.owner_calls()));
        assert(r.live() == owned_handles(r.active_set()).add(staged_handles(r.staged_set())));
        r
    }

    /// The DPI of the look in use.
    pub fn dpi(&self) -> (r: u32)
        ensures
            r == self.current_dpi(),
    {
        self.dpi
    }

    /// The palette of the look in use.
    pub fn palette(&self) -> (r: DialogPalette)
        ensures
            r == self.current_palette(),
    {
        self.palette
    }

    /// The fonts and brushes in use.
    pub fn resources(&self) -> (r: DialogResourceSet)
        ensures
            r == self.active_set(),
    {
        self.active
    }

    /// Whether an update of the look is under way.
    pub fn update_in_progress(&self) -> (r: bool)
        ensures
            r == self.in_progress(),
    {
        self.update_in_progress
    }

    /// The latest request made during the update under way.
    pub fn pending_update(&self) -> (r: Option<(u32, DialogTheme)>)
        ensures
            r == self.pending(),
    {
        self.pending_update
    }

    /// The backend, to read what it recorded.
    pub fn backend(&self) -> (r: &B)
        ensures
            *r == self.backend_state(),
    {
        &self.backend
    }

    /// The fonts and darkness of the look in use.
    pub fn snapshot(&self) -> (r: DialogVisualSnapshot)
        ensures
            r == snapshot_of(self.active_set(), self.current_palette()),
    {
        DialogVisualSnapshot {
            body_font: self.active.body_font,
            heading_font: self.active.heading_font,
            dark: self.palette == DialogPalette::for_theme(DialogTheme::Dark),
        }
    }

    /// What an owner-drawn row paints with, copied out of the look in use.
    pub fn profile_row_snapshot(&self) -> (r: ProfileRowPaintResources)
        ensures
            r == (ProfileRowPaintResources {
                dpi: self.current_dpi(),
                palette: self.current_palette(),
                body_font: self.active_set().body_font,
            }),
    {
        ProfileRowPaintResources { dpi: self.dpi, palette: self.palette, body_font: self.active.body_font }
    }

    /// The height of an owner-drawn row at the committed DPI, at least one
    /// pixel.
    pub fn profile_row_height(&self) -> (r: i32)
        ensures
            r == ({
                let h = #[verifier::truncate] (scaled_size(ROW_HEIGHT as int, self.current_dpi() as int) as i32);
                if h > 1 { h } else { 1i32 }
            }),
    {
        let h = scale_logical(ROW_HEIGHT, self.dpi);
        if h > 1 {
            h
        } else {
            1
        }
    }

    /// Makes the resources of a new look at `dpi` in `theme`, apart from the
    /// look in use. Nothing is made when the look is the same, and a set
    /// without both brushes is released at once.
    #[verifier::spinoff_prover]
    #[verifier::rlimit(40)]
    fn rebuild_for_dpi(&mut self, dpi: u32, theme: DialogTheme) -> (r: Option<StagedDialogVisualResources>)
        requires
            old(self).wf(),
            old(self).staged_set() is None,
        ensures
            final(self).current_dpi() == old(self).current_dpi(),
            final(self).current_palette() == old(self).current_palette(),
            final(self).active_set() == old(self).active_set(),
            final(self).staged_set() == old(self).staged_set(),
            final(self).in_progress() == old(self).in_progress(),
            final(self).pending() == old(self).pending(),
            final(self).log_start() == old(self).log_start(),
            log_extends(old(self).calls(), final(self).calls()),
            staging(
                appended(old(self).calls(), final(self).calls()),
                old(self).current_dpi(),
                old(self).current_palette(),
                dpi,
                palette_of(theme),
                r,
            ),
            0 <= final(self).log_start() <= final(self).calls().len(),
            deletes_only_live(Multiset::empty(), final(self).owner_calls()),
            final(self).live() == owned_handles(final(self).active_set()).add(staged_handles(r)),
            r is Some ==> complete_brush_set(r->Some_0.resources),
    {
        let ghost start = self.backend.resource_calls();
        let ghost own = self.owner_calls();
        let palette = DialogPalette::for_theme(theme);
        if self.dpi == dpi && self.palette == palette {
            assert(appended(start, self.backend.resource_calls()) =~= Seq::<ResourceCall>::empty());
            assert(start.take(start.len() as int) =~= start);
            assert(owned_handles(self.active).add(staged_handles(None)) =~= owned_handles(self.active));
            return None;
        }
        let resources = allocate_dialog_resources(&mut self.backend, dpi, palette);
        let ghost c1 = self.backend.resource_calls();
        let ghost alloc = appended(start, c1);
        proof {
            assert(c1 =~= start + alloc);
            lemma_allocation_accounting(self.live_of(own), alloc, dpi, palette, resources);
        }
        if !resources.has_complete_brush_set() {
            release_dialog_resource_set(&mut self.backend, resources);
            proof {
                let fin = self.backend.resource_calls();
                let rel = release_calls(resources);
                assert(fin =~= start + (alloc + rel));
                assert(fin.take(start.len() as int) =~= start);
                assert(appended(start, fin) =~= alloc + rel);
                lemma_allocation_prefix(alloc, rel, dpi, palette, resources);
                assert(self.owner_calls() =~= own + (alloc + rel));
                lemma_live_after_append(Multiset::empty(), own, alloc + rel);
                lemma_live_after_append(self.live_of(own), alloc, rel);
                lemma_release_accounting(self.live_of(own), resources);
                assert(self.live_of(own) =~= owned_handles(self.active).add(staged_handles(None)));
            }
            return None;
        }
        let staged = StagedDialogVisualResources { dpi, palette, resources };
        proof {
            let fin = self.backend.resource_calls();
            assert(fin.take(start.len() as int) =~= start);
            lemma_allocation_prefix(alloc, Seq::empty(), dpi, palette, resources);
            assert(alloc + Seq::<ResourceCall>::empty() =~= alloc);
            assert(self.owner_calls() =~= own + alloc);
            lemma_live_after_append(Multiset::empty(), own, alloc);
            assert(self.live_of(own) =~= owned_handles(self.active));
            assert(owned_handles(self.active).add(owned_handles(resources)) =~= owned_handles(self.active).add(
                staged_handles(Some(staged)),
            ));
        }
        Some(staged)
    }

    /// Asks for the look at `dpi` in `theme`.
    ///
    /// During an update the request only replaces the waiting one and is
    /// answered `Coalesced`, with nothing made or deleted. Otherwise an
    /// update begins: the new look is staged beside the one in use, and the
    /// snapshot to apply is the staged one, or the look in use when nothing
    /// was staged.
    #[verifier::spinoff_prover]
    #[verifier::rlimit(40)]
    pub fn request_visual_update(&mut self, dpi: u32, theme: DialogTheme) -> (r: DialogVisualRequest)
        requires
            old(self).wf(),
        ensures
            final(self).wf(),
            final(self).current_dpi() == old(self).current_dpi(),
            final(self).current_palette() == old(self).current_palette(),
            final(self).active_set() == old(self).active_set(),
            final(self).log_start() == old(self).log_start(),
            final(self).in_progress(),
            old(self).in_progress() ==> {
                &&& r == DialogVisualRequest::Coalesced
                &&& final(self).pending() == Some((dpi, theme))
                &&& final(self).calls() == old(self).calls()
                &&& final(self).staged_set() == old(self).staged_set()
            },
            !old(self).in_progress() ==> {
                &&& final(self).pending() is None
                &&& log_extends(old(self).calls(), final(self).calls())
                &&& staging(
                    appended(old(self).calls(), final(self).calls()),
                    old(self).current_dpi(),
                    old(self).current_palette(),
                    dpi,
                    palette_of(theme),
                    final(self).staged_set(),
                )
                &&& r == DialogVisualRequest::Apply(
                    visual_of(final(self).staged_set(), old(self).active_set(), old(self).current_palette()),
                )
            },
    {
        if self.update_in_progress {
            self.pending_update = Some((dpi, theme));
            return DialogVisualRequest::Coalesced;
        }
        self.update_in_progress = true;
        let staged = self.rebuild_for_dpi(dpi, theme);
        self.staged = staged;
        let visual = match staged {
            Some(s) => DialogVisualSnapshot {
                body_font: s.resources.body_font,
                heading_font: s.resources.heading_font,
                dark: s.palette == DialogPalette::for_theme(DialogTheme::Dark),
            },
            None => self.snapshot(),
        };
        DialogVisualRequest::Apply(visual)
    }

    /// Ends a step of the update once its snapshot was applied: the staged
    /// look, if any, takes the place of the one in use, which is released.
    /// A request that waited is then staged in turn and its snapshot
    /// returned; with none, the update is over.
    #[verifier::spinoff_prover]
    #[verifier::rlimit(40)]
    pub fn finish_visual_update(&mut self) -> (r: Option<DialogVisualSnapshot>)
        requires
            old(self).wf(),
            old(self).in_progress(),
        ensures
            final(self).wf(),
            final(self).log_start() == old(self).log_start(),
            log_extends(old(self).calls(), final(self).calls()),
            final(self).current_dpi() == committed_dpi(old(self).staged_set(), old(self).current_dpi()),
            final(self).current_palette() == committed_palette(old(self).staged_set(), old(self).current_palette()),
            final(self).active_set() == committed_set(old(self).staged_set(), old(self).active_set()),
            ({
                let added = appended(old(self).calls(), final(self).calls());
                let released = commit_release(old(self).staged_set(), old(self).active_set());
                &&& added.len() >= released.len()
                &&& added.take(released.len() as int) == released
                &&& match old(self).pending() {
                    Some((d, t)) => {
                        &&& final(self).in_progress()
                        &&& final(self).pending() is None
                        &&& staging(
                            added.skip(released.len() as int),
                            final(self).current_dpi(),
                            final(self).current_palette(),
                            d,
                            palette_of(t),
                            final(self).staged_set(),
                        )
                        &&& r == Some(
                            visual_of(final(self).staged_set(), final(self).active_set(), final(self).current_palette()),
                        )
                    },
                    None => {
                        &&& !final(self).in_progress()
                        &&& final(self).staged_set() is None
                        &&& added.len() == released.len()
                        &&& r is None
                    },
                }
            }),
    {
        let ghost start = self.backend.resource_calls();
        let ghost own = self.owner_calls();
        let ghost old_active = self.active;
        let ghost old_staged = self.staged;
        if let Some(staged) = self.staged {
            let previous = self.active;
            self.dpi = staged.dpi;
            self.palette = staged.palette;
            self.active = staged.resources;
            self.staged = None;
            release_dialog_resource_set(&mut self.backend, previous);
            proof {
                let rel = release_calls(previous);
                assert(self.owner_calls() =~= own + rel);
                lemma_live_after_append(Multiset::empty(), own, rel);
                assert(self.live_of(own) =~= owned_handles(staged.resources).add(owned_handles(previous)));
                lemma_release_accounting(owned_handles(staged.resources), previous);
                assert(owned_handles(self.active) =~= owned_handles(self.active).add(staged_handles(None)));
            }
        }
        let ghost mid = self.backend.resource_calls();
        proof {
            let released = commit_release(old_staged, old_active);
            assert(mid =~= start + released);
            assert(mid.take(start.len() as int) =~= start);
            assert(appended(start, mid) =~= released);
        }
        match self.pending_update {
            Some((dpi, theme)) => {
                self.pending_update = None;
                let staged = self.rebuild_for_dpi(dpi, theme);
                self.staged = staged;
                proof {
                    let fin = self.backend.resource_calls();
                    let released = commit_release(old_staged, old_active);
                    let added = appended(start, fin);
                    assert(fin =~= mid + appended(mid, fin));
                    assert(added =~= released + appended(mid, fin));
                    assert(added.take(released.len() as int) =~= released);
                    assert(added.skip(released.len() as int) =~= appended(mid, fin));
                    assert(fin.take(start.len() as int) =~= start);
                }
                let visual = match staged {
                    Some(s) => DialogVisualSnapshot {
                        body_font: s.resources.body_font,
                        heading_font: s.resources.heading_font,
                        dark: s.palette == DialogPalette::for_theme(DialogTheme::Dark),
                    },
                    None => self.snapshot(),
                };
                Some(visual)
            },
            None => {
                self.update_in_progress = false;
                proof {
                    let released = commit_release(old_staged, old_active);
                    assert(appended(start, mid).take(released.len() as int) =~= released);
                }
                None
            },
        }
    }

    /// Releases everything the dialog owns and hands the backend back: after
    /// this every handle created through this owner has been deleted exactly
    /// once, and nothing borrowed or never created was deleted.
    #[verifier::spinoff_prover]
    #[verifier::rlimit(40)]
    pub fn teardown(self) -> (backend: B)
        requires
            self.wf(),
        ensures
            backend.resource_calls() == self.calls() + release_calls(self.active_set()) + staged_release(
                self.staged_set(),
            ),
            deletes_only_live(Multiset::empty(), backend.resource_calls().skip(self.log_start())),
            live_after(Multiset::empty(), backend.resource_calls().skip(self.log_start())) == Multiset::<
                usize,
            >::empty(),
            deleted_handles(backend.resource_calls().skip(self.log_start())) == created_handles(
                backend.resource_calls().skip(self.log_start()),
            ),
    {
        let ghost own = self.owner_calls();
        let ghost start = self.calls();
        let DialogVisualResources { active, staged, mut backend, log_start, .. } = self;
        release_dialog_resource_set(&mut backend, active);
        if let Some(s) = staged {
            release_dialog_resource_set(&mut backend, s.resources);
        }
        proof {
            let rel_a = release_calls(active);
            let rel_s = staged_release(staged);
            let fin = backend.resource_calls();
            assert(fin =~= start + rel_a + rel_s);
            let own_fin = fin.skip(log_start@);
            assert(own_fin =~= own + rel_a + rel_s);
            let empty = Multiset::<usize>::empty();
            lemma_live_after_append(empty, own + rel_a, rel_s);
            lemma_live_after_append(empty, own, rel_a);
            lemma_release_accounting(staged_handles(staged), active);
            assert(live_after(empty, own) =~= staged_handles(staged).add(owned_handles(active)));
            match staged {
                Some(st) => {
                    lemma_release_accounting(empty, st.resources);
                    assert(staged_handles(staged) =~= empty.add(owned_handles(st.resources)));
                },
                None => {
                    assert(rel_s.len() == 0);
                },
            }
            assert(live_after(empty, own_fin) =~= empty);
            lemma_live_accounts_for_calls(empty, own_fin);
            assert(empty.add(deleted_handles(own_fin)) =~= deleted_handles(own_fin));
            assert(empty.add(created_handles(own_fin)) =~= created_handles(own_fin));
            assert(live_after(empty, own_fin).add(deleted_handles(own_fin)) == empty.add(created_handles(own_fin)));
            assert(deleted_handles(own_fin) =~= created_handles(own_fin));
        }
        backend
    }

    spec fn live_of(&self, calls: Seq<ResourceCall>) -> Multiset<usize> {
        live_after(Multiset::empty(), calls)
    }
}

/// Erases the dialog's background with `fill` when a background brush
/// exists, and counts the erase handled only when the fill worked; without
/// a brush, or when the fill failed, Windows erases instead.
pub fn erase_dialog_background_with<B: DialogResourceBackend, E, F: FnOnce(usize) -> Result<(), E>>(
    resources: &DialogVisualResources<B>,
    fill: F,
) -> (handled: bool)
    requires
        resources.active_set().background_brush != 0 ==> call_requires(
            fill,
            (resources.active_set().background_brush,),
        ),
    ensures
        resources.active_set().background_brush == 0 ==> !handled,
        resources.active_set().background_brush != 0 ==> exists|out: Result<(), E>|
            #[trigger] call_ensures(fill, (resources.active_set().background_brush,), out) && handled == (out is Ok),
{
    let brush = resources.resources().background_brush;
    if brush == 0 {
        return false;
    }
    let out = fill(brush);
    match out {
        Ok(()) => true,
        Err(_) => false,
    }
}

/// The fonts handed to the controls during an update are alive whenever
/// the dialog owns them: a new look is applied before the old one is
/// deleted, and the look in use is never deleted while it is shown.
pub proof fn lemma_applied_fonts_are_alive<B: DialogResourceBackend>(resources: &DialogVisualResources<B>)
    requires
        resources.wf(),
    ensures
        ({
            let set = committed_set(resources.staged_set(), resources.active_set());
            let visual = visual_of(resources.staged_set(), resources.active_set(), resources.current_palette());
            &&& visual.body_font == set.body_font
            &&& visual.heading_font == set.heading_font
            &&& set.owns_body_font && set.body_font != 0 ==> resources.live().count(set.body_font) > 0
            &&& set.owns_heading_font && set.heading_font != 0 ==> resources.live().count(set.heading_font) > 0
            &&& resources.active_set().owns_body_font && resources.active_set().body_font != 0
                ==> resources.live().count(resources.active_set().body_font) > 0
        }),
{
}

} // verus!
