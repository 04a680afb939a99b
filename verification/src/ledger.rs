//! The invoice-factoring ledger.
//!
//! The [`InvoiceFactoringContract`] owns the whole ledger state: the
//! monotonically increasing invoice-id counter, the invoice records, and the
//! single [`PlatformStats`] aggregate.  Every operation is a synchronous,
//! all-or-nothing transition on that state: a listing appends a fresh
//! invoice and bumps the counter, a purchase flips one invoice from active
//! to sold, and the two read operations never fail.
//!
//! The host environment is expected to authenticate callers and to supply
//! the clock.  Operations therefore take the host's authentication verdict
//! and, for listings, the current timestamp as plain arguments; a failed
//! authentication aborts the operation before any state is touched, so it
//! never consumes an invoice id.

use crate::pricing::lemma_selling_price_fits;
use crate::pricing::selling_price_of;
use vstd::prelude::*;

verus! {

/// A participant on the platform, as the host names it.
///
/// The ledger never inspects an account beyond telling it apart from
/// [`Identity::Unassigned`], the sentinel that stands for "no one": the
/// buyer slot of an invoice that has not been purchased yet, and the
/// parties of the sentinel invoice that a failed lookup returns.
#[derive(Clone, Copy, PartialEq, Eq, Structural, Debug)]
pub enum Identity {
    /// The sentinel identity: no account at all.
    Unassigned,
    /// A real account, under the handle the host assigned to it.
    Account(u64),
}

/// One factoring instrument: an unpaid invoice listed for sale.
#[derive(Clone, Copy, PartialEq, Eq, Structural, Debug)]
pub struct Invoice {
    /// Unique id the ledger assigned at listing time; always positive for a
    /// real invoice, `0` only in the sentinel a failed lookup returns.
    pub invoice_id: u64,
    /// The business that listed the invoice; fixed at creation.
    pub seller: Identity,
    /// The purchaser; [`Identity::Unassigned`] until the invoice is sold.
    pub buyer: Identity,
    /// The original, undiscounted value of the invoice.
    pub invoice_amount: i64,
    /// Discount in whole percent applied at listing (`5` means 5%).
    pub discount_rate: u64,
    /// The discounted price a buyer pays; computed once at listing.
    pub selling_price: i64,
    /// Whether the invoice has been purchased; a sold invoice stays sold.
    pub is_sold: bool,
    /// Host timestamp captured when the invoice was listed.
    pub creation_time: u64,
}

/// Storage key for invoice records in the persistence schema: the tag keeps
/// invoice slots apart from the scalar counter and stats slots, and the
/// payload is the invoice id.
#[derive(Clone, Copy, PartialEq, Eq, Structural, Debug)]
pub enum InvoiceBook {
    Invoice(u64),
}

/// Platform-wide aggregate, maintained alongside every invoice mutation.
#[derive(Clone, Copy, PartialEq, Eq, Structural, Debug)]
pub struct PlatformStats {
    /// Count of all invoices ever listed.
    pub total_invoices: u64,
    /// Count of invoices listed but not yet sold.
    pub active_invoices: u64,
    /// Count of invoices sold.
    pub sold_invoices: u64,
    /// Sum of the selling prices of all sold invoices.
    pub total_volume: i64,
}

/// Why a ledger operation was refused.  Every failure aborts the operation
/// with the ledger state exactly as it was.
#[derive(Clone, Copy, PartialEq, Eq, Structural, Debug)]
pub enum Error {
    /// The caller did not authenticate as the required party.
    Unauthorized,
    /// A purchase targeted an id that was never issued.
    InvoiceNotFound,
    /// A purchase targeted an invoice that is already sold.
    AlreadySold,
}

/// The invoice a failed lookup returns: id `0`, every other field
/// zero, unassigned, or false.
pub open spec fn sentinel_invoice() -> Invoice {
    Invoice {
        invoice_id: 0,
        seller: Identity::Unassigned,
        buyer: Identity::Unassigned,
        invoice_amount: 0,
        discount_rate: 0,
        selling_price: 0,
        is_sold: false,
        creation_time: 0,
    }
}

/// The zero-valued aggregate a fresh ledger reports.
pub open spec fn zero_stats() -> PlatformStats {
    PlatformStats { total_invoices: 0, active_invoices: 0, sold_invoices: 0, total_volume: 0 }
}

/// The invoice a listing creates: unsold, buyer unassigned, selling price
/// derived from the face amount and the discount rate.
pub open spec fn listed_invoice(
    invoice_id: u64,
    seller: Identity,
    invoice_amount: i64,
    discount_rate: u64,
    creation_time: u64,
) -> Invoice {
    Invoice {
        invoice_id,
        seller,
        buyer: Identity::Unassigned,
        invoice_amount,
        discount_rate,
        selling_price: selling_price_of(invoice_amount as int, discount_rate as int) as i64,
        is_sold: false,
        creation_time,
    }
}

/// The invoice as a purchase leaves it: same instrument, but sold and with
/// the buyer recorded.
pub open spec fn purchased(inv: Invoice, buyer: Identity) -> Invoice {
    Invoice { buyer, is_sold: true, ..inv }
}

/// How many of the invoices in `s` are sold.
pub open spec fn sold_count(s: Seq<Invoice>) -> int
    decreases s.len(),
{
    if s.len() == 0 {
        0
    } else {
        sold_count(s.drop_last()) + if s.last().is_sold {
            1int
        } else {
            0int
        }
    }
}

/// The sum of the selling prices of the sold invoices in `s`.
pub open spec fn sold_volume(s: Seq<Invoice>) -> int
    decreases s.len(),
{
    if s.len() == 0 {
        0
    } else {
        sold_volume(s.drop_last()) + if s.last().is_sold {
            s.last().selling_price as int
        } else {
            0int
        }
    }
}

/// The sold count is a count: at least zero, at most the length.
pub proof fn lemma_sold_count_bounds(s: Seq<Invoice>)
    ensures
        0 <= sold_count(s) <= s.len(),
    decreases s.len(),
{
    if s.len() > 0 {
        lemma_sold_count_bounds(s.drop_last());
    }
}

/// An unsold invoice keeps the sold count strictly below the length.
pub proof fn lemma_sold_count_with_unsold(s: Seq<Invoice>, i: int)
    requires
        0 <= i < s.len(),
        !s[i].is_sold,
    ensures
        sold_count(s) <= s.len() - 1,
    decreases s.len(),
{
    lemma_sold_count_bounds(s.drop_last());
    if i < s.len() - 1 {
        lemma_sold_count_with_unsold(s.drop_last(), i);
    }
}

/// Appending an invoice adds its own contribution to the sold count and
/// the sold volume and changes nothing else.
pub proof fn lemma_sold_totals_push(s: Seq<Invoice>, inv: Invoice)
    ensures
        sold_count(s.push(inv)) == sold_count(s) + if inv.is_sold {
            1int
        } else {
            0int
        },
        sold_volume(s.push(inv)) == sold_volume(s) + if inv.is_sold {
            inv.selling_price as int
        } else {
            0int
        },
{
    assert(s.push(inv).drop_last() =~= s);
    assert(s.push(inv).last() == inv);
}

/// Selling one unsold invoice raises the sold count by one and the sold
/// volume by that invoice's selling price.
pub proof fn lemma_sold_totals_update(s: Seq<Invoice>, i: int, v: Invoice)
    requires
        0 <= i < s.len(),
        !s[i].is_sold,
        v.is_sold,
    ensures
        sold_count(s.update(i, v)) == sold_count(s) + 1,
        sold_volume(s.update(i, v)) == sold_volume(s) + v.selling_price,
    decreases s.len(),
{
    let t = s.update(i, v);
    if i == s.len() - 1 {
        assert(t.drop_last() =~= s.drop_last());
        assert(t.last() == v);
    } else {
        lemma_sold_totals_update(s.drop_last(), i, v);
        assert(t.drop_last() =~= s.drop_last().update(i, v));
        assert(t.last() == s.last());
    }
}

/// The ledger: the id counter, the invoice records, and the aggregate
/// statistics, owned exclusively and mutated only through the operations
/// below.
pub struct InvoiceFactoringContract {
    invoice_count: u64,
    book: Vec<Invoice>,
    stats: PlatformStats,
}

impl InvoiceFactoringContract {
    /// The recorded invoices, in order of listing: the invoice with id `i`
    /// sits at index `i - 1`.
    pub closed spec fn invoices(self) -> Seq<Invoice> {
        self.book@
    }

    /// The last-assigned invoice id; `0` before the first listing.
    pub closed spec fn issued_count(self) -> u64 {
        self.invoice_count
    }

    /// The aggregate statistics as the ledger holds them.
    pub closed spec fn platform_stats(self) -> PlatformStats {
        self.stats
    }

    /// Well-formedness: what holds of the ledger after any completed
    /// operation.
    ///
    /// Ids are exactly `1 ..= issued_count()`, in order and with no gaps or
    /// repeats; a sold invoice names a real buyer; every selling price is
    /// the listed discount formula applied to the invoice's own fields; and
    /// the aggregate equals what the records themselves say: the total is
    /// the number of records, sold and active partition it, and the volume
    /// is the sum over the sold records.
    pub open spec fn wf(self) -> bool {
        &&& self.issued_count() == self.invoices().len()
        &&& forall|i: int|
            0 <= i < self.invoices().len() ==> (#[trigger] self.invoices()[i]).invoice_id == i + 1
        &&& forall|i: int|
            0 <= i < self.invoices().len() ==> ((#[trigger] self.invoices()[i]).is_sold
                ==> self.invoices()[i].buyer is Account)
        &&& forall|i: int|
            0 <= i < self.invoices().len() ==> (#[trigger] self.invoices()[i]).selling_price
                == selling_price_of(
                self.invoices()[i].invoice_amount as int,
                self.invoices()[i].discount_rate as int,
            )
        &&& self.platform_stats().total_invoices == self.invoices().len()
        &&& self.platform_stats().sold_invoices == sold_count(self.invoices())
        &&& self.platform_stats().active_invoices + sold_count(self.invoices())
            == self.invoices().len()
        &&& self.platform_stats().total_volume == sold_volume(self.invoices())
    }

    /// A fresh ledger: no invoices, counter at zero, zero-valued stats.
    pub fn new() -> (ledger: Self)
        ensures
            ledger.wf(),
            ledger.issued_count() == 0,
            ledger.invoices() == Seq::<Invoice>::empty(),
            ledger.platform_stats() == zero_stats(),
    {
        let ledger = InvoiceFactoringContract {
            invoice_count: 0,
            book: Vec::new(),
            stats: PlatformStats {
                total_invoices: 0,
                active_invoices: 0,
                sold_invoices: 0,
                total_volume: 0,
            },
        };
        ledger
    }

    /// Lists an unpaid invoice for sale and returns its freshly assigned
    /// id.
    ///
    /// `seller_auth` is the host's verdict on whether the caller
    /// authenticated as `seller`; when it is false the listing fails with
    /// [`Error::Unauthorized`] before anything changes, so no id is
    /// consumed.  Otherwise the invoice is appended with the next id,
    /// unsold, buyer unassigned, priced at
    /// `invoice_amount - invoice_amount * discount_rate / 100` (truncating
    /// division), and the aggregate gains one total and one active invoice.
    ///
    /// No bound is placed on the face amount or the rate beyond what the
    /// machine arithmetic forces: the product must fit in an `i64`, and the
    /// id counter must not be exhausted.
    pub fn list_invoice(
        &mut self,
        seller: Identity,
        seller_auth: bool,
        invoice_amount: i64,
        discount_rate: u64,
        now: u64,
    ) -> (r: Result<u64, Error>)
        requires
            old(self).wf(),
            old(self).issued_count() < u64::MAX,
            i64::MIN <= invoice_amount * discount_rate <= i64::MAX,
        ensures
            final(self).wf(),
            !seller_auth ==> r == Err::<u64, Error>(Error::Unauthorized) && *final(self) == *old(
                self,
            ),
            seller_auth ==> ({
                let id: int = old(self).issued_count() + 1;
                &&& r == Ok::<u64, Error>(id as u64)
                &&& final(self).issued_count() == id
                &&& final(self).invoices() == old(self).invoices().push(
                    listed_invoice(id as u64, seller, invoice_amount, discount_rate, now),
                )
                &&& final(self).invoices().last().selling_price == selling_price_of(
                    invoice_amount as int,
                    discount_rate as int,
                )
                &&& final(self).platform_stats() == (PlatformStats {
                    total_invoices: (old(self).platform_stats().total_invoices + 1) as u64,
                    active_invoices: (old(self).platform_stats().active_invoices + 1) as u64,
                    sold_invoices: old(self).platform_stats().sold_invoices,
                    total_volume: old(self).platform_stats().total_volume,
                })
            }),
    {
        if !seller_auth {
            return Err(Error::Unauthorized);
        }
        let id: u64 = self.invoice_count + 1;
        let price: i64 = crate::pricing::compute_selling_price(invoice_amount, discount_rate);
        let inv = Invoice {
            invoice_id: id,
            seller,
            buyer: Identity::Unassigned,
            invoice_amount,
            discount_rate,
            selling_price: price,
            is_sold: false,
            creation_time: now,
        };
        proof {
            lemma_selling_price_fits(invoice_amount as int, discount_rate as int);
            assert(inv == listed_invoice(id, seller, invoice_amount, discount_rate, now));
            lemma_sold_count_bounds(self.book@);
            lemma_sold_totals_push(self.book@, inv);
        }
        self.book.push(inv);
        self.invoice_count = id;
        self.stats = PlatformStats {
            total_invoices: self.stats.total_invoices + 1,
            active_invoices: self.stats.active_invoices + 1,
            sold_invoices: self.stats.sold_invoices,
            total_volume: self.stats.total_volume,
        };
        Ok(id)
    }

    /// Purchases a listed invoice.
    ///
    /// `buyer_auth` is the host's verdict on whether the caller
    /// authenticated as `buyer`; a failed authentication aborts with
    /// [`Error::Unauthorized`] before anything is read or written.  An id
    /// that was never issued fails with [`Error::InvoiceNotFound`]; an
    /// invoice already sold fails with [`Error::AlreadySold`]; every
    /// failure leaves the ledger exactly as it was.  On success the invoice
    /// is marked sold with the buyer recorded, and the aggregate moves one
    /// invoice from active to sold and adds the selling price to the
    /// volume.
    pub fn purchase_invoice(&mut self, invoice_id: u64, buyer: Identity, buyer_auth: bool) -> (r:
        Result<(), Error>)
        requires
            old(self).wf(),
            buyer_auth ==> buyer is Account,
            1 <= invoice_id <= old(self).invoices().len() && !old(self).invoices()[invoice_id
                - 1].is_sold ==> i64::MIN <= old(self).platform_stats().total_volume + old(
                self,
            ).invoices()[invoice_id - 1].selling_price <= i64::MAX,
        ensures
            final(self).wf(),
            !buyer_auth ==> r == Err::<(), Error>(Error::Unauthorized) && *final(self) == *old(
                self,
            ),
            buyer_auth && !(1 <= invoice_id <= old(self).invoices().len()) ==> r == Err::<
                (),
                Error,
            >(Error::InvoiceNotFound) && *final(self) == *old(self),
            buyer_auth && 1 <= invoice_id <= old(self).invoices().len() && old(self).invoices()[
                invoice_id - 1
            ].is_sold ==> r == Err::<(), Error>(Error::AlreadySold) && *final(self) == *old(self),
            buyer_auth && 1 <= invoice_id <= old(self).invoices().len() && !old(self).invoices()[
                invoice_id - 1
            ].is_sold ==> ({
                let sold = old(self).invoices()[invoice_id - 1];
                &&& r == Ok::<(), Error>(())
                &&& final(self).invoices() == old(self).invoices().update(
                    invoice_id - 1,
                    purchased(sold, buyer),
                )
                &&& final(self).issued_count() == old(self).issued_count()
                &&& final(self).platform_stats() == (PlatformStats {
                    total_invoices: old(self).platform_stats().total_invoices,
                    active_invoices: (old(self).platform_stats().active_invoices - 1) as u64,
                    sold_invoices: (old(self).platform_stats().sold_invoices + 1) as u64,
                    total_volume: (old(self).platform_stats().total_volume
                        + sold.selling_price) as i64,
                })
            }),
    {
        if !buyer_auth {
            return Err(Error::Unauthorized);
        }
        let n: usize = self.book.len();
        if invoice_id == 0 || invoice_id > n as u64 {
            return Err(Error::InvoiceNotFound);
        }
        let idx: usize = (invoice_id - 1) as usize;
        let inv: Invoice = self.book[idx];
        if inv.is_sold {
            return Err(Error::AlreadySold);
        }
        let updated = Invoice { buyer, is_sold: true, ..inv };
        proof {
            lemma_sold_count_bounds(self.book@);
            lemma_sold_count_with_unsold(self.book@, idx as int);
            lemma_sold_totals_update(self.book@, idx as int, updated);
        }
        self.book[idx] = updated;
        self.stats = PlatformStats {
            total_invoices: self.stats.total_invoices,
            active_invoices: self.stats.active_invoices - 1,
            sold_invoices: self.stats.sold_invoices + 1,
            total_volume: self.stats.total_volume + inv.selling_price,
        };
        Ok(())
    }

    /// Looks up an invoice by id.  Never fails: an id that was never
    /// issued returns the sentinel invoice, recognizable by `invoice_id ==
    /// 0`.
    pub fn get_invoice(&self, invoice_id: u64) -> (r: Invoice)
        requires
            self.wf(),
        ensures
            1 <= invoice_id <= self.invoices().len() ==> r == self.invoices()[invoice_id - 1],
            !(1 <= invoice_id <= self.invoices().len()) ==> r == sentinel_invoice(),
    {
        let n: usize = self.book.len();
        if 1 <= invoice_id && invoice_id <= n as u64 {
            let idx: usize = (invoice_id - 1) as usize;
            self.book[idx]
        } else {
            Invoice {
                invoice_id: 0,
                seller: Identity::Unassigned,
                buyer: Identity::Unassigned,
                invoice_amount: 0,
                discount_rate: 0,
                selling_price: 0,
                is_sold: false,
                creation_time: 0,
            }
        }
    }

    /// Reads the aggregate statistics.  Never fails: a fresh ledger
    /// reports the zero-valued aggregate.
    pub fn get_platform_stats(&self) -> (r: PlatformStats)
        ensures
            r == self.platform_stats(),
    {
        self.stats
    }
}

/// Ids are issued consecutively: in any well-formed ledger the invoice at
/// index `i` carries id `i + 1`, so after `N` listings the issued ids are
/// exactly `1 ..= N`, with no gaps and no repeats, however listings and
/// purchases were interleaved.
pub proof fn lemma_ids_consecutive(ledger: InvoiceFactoringContract)
    requires
        ledger.wf(),
    ensures
        forall|i: int|
            0 <= i < ledger.invoices().len() ==> (#[trigger] ledger.invoices()[i]).invoice_id == i
                + 1,
        forall|id: u64|
            1 <= id <= ledger.invoices().len() ==> (#[trigger] ledger.invoices()[id
                - 1]).invoice_id == id,
        forall|i: int, j: int|
            0 <= i < ledger.invoices().len() && 0 <= j < ledger.invoices().len() && (
            #[trigger] ledger.invoices()[i]).invoice_id == (
            #[trigger] ledger.invoices()[j]).invoice_id ==> i == j,
{
}

/// The aggregate always balances: every invoice ever listed is either
/// still active or sold, so `total_invoices` equals `active_invoices +
/// sold_invoices` after any completed operation.
pub proof fn lemma_stats_balanced(ledger: InvoiceFactoringContract)
    requires
        ledger.wf(),
    ensures
        ledger.platform_stats().total_invoices == ledger.platform_stats().active_invoices
            + ledger.platform_stats().sold_invoices,
{
}

/// The recorded volume is exactly the sum of the selling prices of the
/// sold invoices, after any completed operation.
pub proof fn lemma_volume_is_sold_total(ledger: InvoiceFactoringContract)
    requires
        ledger.wf(),
    ensures
        ledger.platform_stats().total_volume == sold_volume(ledger.invoices()),
{
}

/// With a non-negative face amount the discount cannot be negative, so no
/// invoice in a well-formed ledger sells above its face value.
pub proof fn lemma_price_at_most_face_amount(ledger: InvoiceFactoringContract, i: int)
    requires
        ledger.wf(),
        0 <= i < ledger.invoices().len(),
        ledger.invoices()[i].invoice_amount >= 0,
    ensures
        ledger.invoices()[i].selling_price <= ledger.invoices()[i].invoice_amount,
{
    let inv = ledger.invoices()[i];
    assert(inv.invoice_amount * inv.discount_rate >= 0) by (nonlinear_arith)
        requires
            inv.invoice_amount >= 0 && inv.discount_rate >= 0,
    ;
    crate::pricing::lemma_trunc_div_bounds(inv.invoice_amount * inv.discount_rate, 100);
}

/// A sale is terminal.  The record a successful purchase writes is sold,
/// so a second purchase of the same id meets exactly the
/// [`Error::AlreadySold`] case of [`InvoiceFactoringContract::purchase_invoice`]'s
/// contract: it fails and leaves the ledger — the invoice and the stats —
/// untouched.
pub proof fn lemma_sale_is_terminal(s: Seq<Invoice>, invoice_id: u64, buyer: Identity)
    requires
        1 <= invoice_id <= s.len(),
        !s[invoice_id - 1].is_sold,
    ensures
        s.update(invoice_id - 1, purchased(s[invoice_id - 1], buyer)).len() == s.len(),
        s.update(invoice_id - 1, purchased(s[invoice_id - 1], buyer))[invoice_id - 1].is_sold,
{
}

} // verus!
