use bigdecimal::BigDecimal;
use putaway::alert::{AlertSeverity, InventoryAlert, InventoryAlertType};
use putaway::clock::bangkok_now_rfc3339;
use putaway::error::PutawayError;
use putaway::pagination::{bin_query_shape, page_count, page_offset, search_pattern};
use putaway::quantity::quantity_text;
use putaway::response::{handle_putaway_error, transfer_error_response};
use putaway::status::{AuthHealthResponse, HealthResponse, PoolStatus, PoolUsage};
use std::str::FromStr;

#[test]
fn test_rfc3339_format() {
    let rfc3339_string = bangkok_now_rfc3339();
    assert!(rfc3339_string.contains("+07:00"));
}

#[test]
fn out_of_stock_alert_text() {
    let a = InventoryAlert::out_of_stock("INSALT02");
    assert_eq!(a.alert_type, InventoryAlertType::OutOfStock);
    assert_eq!(a.message, "Item INSALT02 is out of stock");
    assert_eq!(a.severity, AlertSeverity::Critical);
    assert_eq!(a.recommended_action.as_deref(), Some("Check alternative lots or contact purchasing"));
}

#[test]
fn expired_lots_alert_names_three_and_counts_rest() {
    let lots: Vec<String> = ["L1", "L2", "L3", "L4", "L5"].iter().map(|s| s.to_string()).collect();
    let a = InventoryAlert::expired_lots("ITEM", 5, &lots);
    assert_eq!(a.message, "Item ITEM has 5 expired lot(s): L1, L2, L3 and 2 more");
    let b = InventoryAlert::expired_lots("ITEM", 2, &lots[..2]);
    assert_eq!(b.message, "Item ITEM has 2 expired lot(s): L1, L2");
    assert_eq!(b.severity, AlertSeverity::Warning);
}

#[test]
fn decimal_alerts_show_quantities() {
    let qty = BigDecimal::from_str("12.50").unwrap();
    let a = InventoryAlert::low_stock("ITEM", &qty, "KG");
    assert_eq!(a.message, "Low stock: ITEM has only 12.50 KG remaining");
    let have = BigDecimal::from_str("3").unwrap();
    let need = BigDecimal::from_str("4.25").unwrap();
    let b = InventoryAlert::insufficient_quantity("ITEM", &have, &need, "KG");
    assert_eq!(b.message, "Insufficient quantity: ITEM has 3 KG available, but 4.25 KG is needed");
}

#[test]
fn store_errors_do_not_leak_text() {
    let r = handle_putaway_error(&PutawayError::DatabaseError("login failed for sa".to_string()));
    assert_eq!(r.status, 500);
    assert_eq!(r.message, "Internal server error occurred");
    let r = handle_putaway_error(&PutawayError::TransactionError("deadlock".to_string()));
    assert_eq!(r.error, "Transaction error");
    assert_eq!(r.message, "Failed to complete transaction");
}

#[test]
fn request_errors_are_shown() {
    let r = handle_putaway_error(&PutawayError::ValidationError("bad".to_string()));
    assert_eq!((r.status, r.error.as_str(), r.message.as_str()), (400, "Validation error", "bad"));
    let r = handle_putaway_error(&PutawayError::InvalidBin { bin_no: "Z".to_string(), location: "WH1".to_string() });
    assert_eq!(r.message, "Bin 'Z' is not valid in location 'WH1'");
    let r = handle_putaway_error(&PutawayError::LotNotFound { lot_no: "L9".to_string() });
    assert_eq!((r.status, r.message.as_str()), (404, "Lot 'L9' not found"));
    let r = handle_putaway_error(&PutawayError::InsufficientQuantity { requested: 2_500_000, available: 1_000_000 });
    assert_eq!((r.status, r.error.as_str()), (400, "Insufficient quantity"));
    assert_eq!(r.message, "Requested 2.5 but only 1 available");
}

#[test]
fn pool_usage_thresholds() {
    let at = |n| PoolStatus { total_connections: n, idle_connections: 0, max_size: 150 }.usage_level(150);
    assert_eq!(at(104), PoolUsage::Normal);
    assert_eq!(at(105), PoolUsage::Elevated);
    assert_eq!(at(119), PoolUsage::Elevated);
    assert_eq!(at(120), PoolUsage::High);
}

#[test]
fn auth_health_reports_issues() {
    let ok = AuthHealthResponse::assess("DB".to_string(), Ok(true), true, "t".to_string());
    assert!(ok.success);
    assert_eq!(ok.status, "healthy");
    let missing = AuthHealthResponse::assess("DB".to_string(), Ok(false), false, "t".to_string());
    assert_eq!(missing.status, "degraded");
    assert_eq!(missing.issues, vec!["Authentication table 'tbl_user' not found in database".to_string()]);
    let failed = AuthHealthResponse::assess("DB".to_string(), Err("timeout".to_string()), false, "t".to_string());
    assert_eq!(failed.issues, vec!["Failed to check authentication table: timeout".to_string()]);
    assert!(!failed.tbl_user_exists);
}

#[test]
fn health_report_is_healthy() {
    let h = HealthResponse::healthy("t".to_string(), "1.0".to_string());
    assert!(h.success);
    assert_eq!(h.message, "Putaway backend is running");
}

#[test]
fn pagination_helpers() {
    assert_eq!(page_offset(1, 20), 0);
    assert_eq!(page_offset(3, 20), 40);
    assert_eq!(page_offset(i32::MAX, i32::MAX), (i32::MAX as i64 - 1) * i32::MAX as i64);
    assert_eq!(page_count(41, 20), Some(3));
    assert_eq!(page_count(40, 20), Some(2));
    assert_eq!(page_count(0, 20), Some(0));
    assert_eq!(page_count(5, 0), None);
    assert_eq!(search_pattern("LOT1"), "%LOT1%");
    let s = bin_query_shape(None, Some("L"), Some("I"), None);
    assert!(!s.with_lot_status && !s.filtered);
    let s = bin_query_shape(Some("A"), Some("L"), Some("I"), Some("W"));
    assert!(s.with_lot_status && s.filtered);
}

#[test]
fn transfer_errors_show_quantities() {
    assert_eq!(quantity_text(5_002_000), "5.002");
    assert_eq!(quantity_text(5_000_000), "5");
    assert_eq!(quantity_text(-500_000), "-0.5");
    assert_eq!(quantity_text(10_000_500), "10.0005");
    let r = transfer_error_response(&PutawayError::InsufficientQuantity { requested: 5_002_000, available: 5_000_000 });
    assert_eq!((r.status, r.error.as_str()), (400, "Insufficient quantity"));
    assert_eq!(r.message, "Requested 5.002 but only 5 available");
    let r = transfer_error_response(&PutawayError::TransactionError("x".to_string()));
    assert_eq!(r.message, "Failed to complete transfer transaction");
}
