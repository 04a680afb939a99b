use invoice_factoring::Error;
use invoice_factoring::Identity;
use invoice_factoring::InvoiceFactoringContract;
use invoice_factoring::PlatformStats;

#[test]
fn ids_are_consecutive_across_interleaved_operations() {
    let mut ledger = InvoiceFactoringContract::new();
    let first = ledger
        .list_invoice(Identity::Account(1), true, 1000, 5, 10)
        .unwrap();
    let second = ledger
        .list_invoice(Identity::Account(2), true, 2000, 10, 11)
        .unwrap();
    ledger
        .purchase_invoice(first, Identity::Account(9), true)
        .unwrap();
    let third = ledger
        .list_invoice(Identity::Account(3), true, 500, 0, 12)
        .unwrap();
    assert_eq!(first, 1);
    assert_eq!(second, 2);
    assert_eq!(third, 3);
    assert_eq!(ledger.get_invoice(1).invoice_id, 1);
    assert_eq!(ledger.get_invoice(2).invoice_id, 2);
    assert_eq!(ledger.get_invoice(3).invoice_id, 3);
    assert_eq!(ledger.get_invoice(4).invoice_id, 0);
}

#[test]
fn listing_records_discounted_unsold_invoice() {
    let mut ledger = InvoiceFactoringContract::new();
    let id = ledger
        .list_invoice(Identity::Account(7), true, 1000, 5, 42)
        .unwrap();
    let invoice = ledger.get_invoice(id);
    assert_eq!(invoice.invoice_id, 1);
    assert_eq!(invoice.seller, Identity::Account(7));
    assert_eq!(invoice.buyer, Identity::Unassigned);
    assert_eq!(invoice.invoice_amount, 1000);
    assert_eq!(invoice.discount_rate, 5);
    assert_eq!(invoice.selling_price, 950);
    assert!(!invoice.is_sold);
    assert_eq!(invoice.creation_time, 42);
}

#[test]
fn selling_price_truncates_toward_zero() {
    let mut ledger = InvoiceFactoringContract::new();
    // 999 * 5 / 100 truncates to 49, not 50.
    let a = ledger
        .list_invoice(Identity::Account(1), true, 999, 5, 0)
        .unwrap();
    assert_eq!(ledger.get_invoice(a).selling_price, 950);
    // 101 * 33 / 100 truncates to 33.
    let b = ledger
        .list_invoice(Identity::Account(1), true, 101, 33, 0)
        .unwrap();
    assert_eq!(ledger.get_invoice(b).selling_price, 68);
    // A negative face amount truncates toward zero as well: the discount
    // is -49, not -50.
    let c = ledger
        .list_invoice(Identity::Account(1), true, -999, 5, 0)
        .unwrap();
    assert_eq!(ledger.get_invoice(c).selling_price, -950);
}

#[test]
fn permissive_rates_are_accepted_as_is() {
    let mut ledger = InvoiceFactoringContract::new();
    // A rate over 100% drives the price negative rather than failing.
    let a = ledger
        .list_invoice(Identity::Account(1), true, 100, 150, 0)
        .unwrap();
    assert_eq!(ledger.get_invoice(a).selling_price, -50);
    // A zero rate sells at face value.
    let b = ledger
        .list_invoice(Identity::Account(1), true, 100, 0, 0)
        .unwrap();
    assert_eq!(ledger.get_invoice(b).selling_price, 100);
    // A zero face amount is accepted and prices at zero.
    let c = ledger
        .list_invoice(Identity::Account(1), true, 0, 30, 0)
        .unwrap();
    assert_eq!(ledger.get_invoice(c).selling_price, 0);
}

#[test]
fn unauthorized_listing_consumes_no_id() {
    let mut ledger = InvoiceFactoringContract::new();
    let refused = ledger.list_invoice(Identity::Account(5), false, 1000, 5, 1);
    assert_eq!(refused, Err(Error::Unauthorized));
    assert_eq!(ledger.get_platform_stats(), PlatformStats {
        total_invoices: 0,
        active_invoices: 0,
        sold_invoices: 0,
        total_volume: 0,
    });
    // The next authenticated listing still gets id 1.
    let id = ledger
        .list_invoice(Identity::Account(5), true, 1000, 5, 2)
        .unwrap();
    assert_eq!(id, 1);
}

#[test]
fn unauthorized_purchase_changes_nothing() {
    let mut ledger = InvoiceFactoringContract::new();
    let id = ledger
        .list_invoice(Identity::Account(1), true, 1000, 5, 1)
        .unwrap();
    let refused = ledger.purchase_invoice(id, Identity::Account(2), false);
    assert_eq!(refused, Err(Error::Unauthorized));
    assert!(!ledger.get_invoice(id).is_sold);
    assert_eq!(ledger.get_platform_stats().active_invoices, 1);
}

#[test]
fn purchase_of_unknown_id_fails_and_leaves_stats_alone() {
    let mut ledger = InvoiceFactoringContract::new();
    ledger
        .list_invoice(Identity::Account(1), true, 1000, 5, 1)
        .unwrap();
    let before = ledger.get_platform_stats();
    let missing = ledger.purchase_invoice(7, Identity::Account(2), true);
    assert_eq!(missing, Err(Error::InvoiceNotFound));
    let zero = ledger.purchase_invoice(0, Identity::Account(2), true);
    assert_eq!(zero, Err(Error::InvoiceNotFound));
    assert_eq!(ledger.get_platform_stats(), before);
}

#[test]
fn second_purchase_of_same_invoice_is_rejected() {
    let mut ledger = InvoiceFactoringContract::new();
    let id = ledger
        .list_invoice(Identity::Account(1), true, 1000, 5, 1)
        .unwrap();
    assert_eq!(ledger.purchase_invoice(id, Identity::Account(2), true), Ok(()));
    let after_first = ledger.get_platform_stats();
    let sold = ledger.get_invoice(id);
    assert!(sold.is_sold);
    assert_eq!(sold.buyer, Identity::Account(2));
    let again = ledger.purchase_invoice(id, Identity::Account(3), true);
    assert_eq!(again, Err(Error::AlreadySold));
    // Neither the invoice nor the stats moved a second time.
    assert_eq!(ledger.get_invoice(id), sold);
    assert_eq!(ledger.get_platform_stats(), after_first);
}

#[test]
fn stats_stay_balanced_through_a_sequence() {
    let mut ledger = InvoiceFactoringContract::new();
    for i in 0..5u64 {
        ledger
            .list_invoice(Identity::Account(i), true, 1000 + i as i64, 10, i)
            .unwrap();
        let stats = ledger.get_platform_stats();
        assert_eq!(stats.total_invoices, stats.active_invoices + stats.sold_invoices);
    }
    for id in [2u64, 4, 5] {
        ledger
            .purchase_invoice(id, Identity::Account(50 + id), true)
            .unwrap();
        let stats = ledger.get_platform_stats();
        assert_eq!(stats.total_invoices, stats.active_invoices + stats.sold_invoices);
    }
    let stats = ledger.get_platform_stats();
    assert_eq!(stats.total_invoices, 5);
    assert_eq!(stats.active_invoices, 2);
    assert_eq!(stats.sold_invoices, 3);
}

#[test]
fn volume_is_the_sum_of_sold_selling_prices() {
    let mut ledger = InvoiceFactoringContract::new();
    let a = ledger
        .list_invoice(Identity::Account(1), true, 1000, 5, 1)
        .unwrap(); // price 950
    let b = ledger
        .list_invoice(Identity::Account(1), true, 2000, 10, 2)
        .unwrap(); // price 1800
    let c = ledger
        .list_invoice(Identity::Account(1), true, 300, 0, 3)
        .unwrap(); // price 300
    assert_eq!(ledger.get_platform_stats().total_volume, 0);
    ledger.purchase_invoice(a, Identity::Account(2), true).unwrap();
    assert_eq!(ledger.get_platform_stats().total_volume, 950);
    ledger.purchase_invoice(c, Identity::Account(3), true).unwrap();
    assert_eq!(ledger.get_platform_stats().total_volume, 1250);
    // The unsold invoice contributes nothing.
    assert_eq!(ledger.get_invoice(b).selling_price, 1800);
    assert_eq!(ledger.get_platform_stats(), PlatformStats {
        total_invoices: 3,
        active_invoices: 1,
        sold_invoices: 2,
        total_volume: 1250,
    });
}

#[test]
fn list_then_purchase_reports_full_aggregate() {
    let mut ledger = InvoiceFactoringContract::new();
    let id = ledger
        .list_invoice(Identity::Account(11), true, 1000, 5, 7)
        .unwrap();
    assert_eq!(ledger.get_invoice(id).selling_price, 950);
    ledger.purchase_invoice(id, Identity::Account(12), true).unwrap();
    assert_eq!(ledger.get_platform_stats(), PlatformStats {
        total_invoices: 1,
        active_invoices: 0,
        sold_invoices: 1,
        total_volume: 950,
    });
}

#[test]
fn empty_ledger_returns_sentinels() {
    let ledger = InvoiceFactoringContract::new();
    let sentinel = ledger.get_invoice(999);
    assert_eq!(sentinel.invoice_id, 0);
    assert_eq!(sentinel.seller, Identity::Unassigned);
    assert_eq!(sentinel.buyer, Identity::Unassigned);
    assert_eq!(sentinel.invoice_amount, 0);
    assert_eq!(sentinel.discount_rate, 0);
    assert_eq!(sentinel.selling_price, 0);
    assert!(!sentinel.is_sold);
    assert_eq!(sentinel.creation_time, 0);
    assert_eq!(ledger.get_platform_stats(), PlatformStats {
        total_invoices: 0,
        active_invoices: 0,
        sold_invoices: 0,
        total_volume: 0,
    });
}
