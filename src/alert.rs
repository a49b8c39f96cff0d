use vstd::prelude::*;
use bigdecimal::BigDecimal;
use crate::sequence::{decimal_text, digits_of};
use crate::text::join4;

verus! {

#[verifier::external_type_specification]
#[verifier::external_body]
pub struct ExBigDecimal(BigDecimal);

/// What an inventory alert is about.
#[derive(Debug, Clone, Copy, PartialEq, Eq, Structural)]
pub enum InventoryAlertType {
    OutOfStock,
    LowStock,
    InsufficientQuantity,
    ExpiredLots,
    ExpiringSoon,
    UomMismatch,
    LocationIssue,
}

/// How much an alert matters to picking.
#[derive(Debug, Clone, Copy, PartialEq, Eq, Structural)]
pub enum AlertSeverity {
    /// Blocks picking.
    Critical,
    /// Should be addressed, does not block.
    Warning,
    /// For information only.
    Info,
}

/// A message about an item's stock, with a suggested action.
#[derive(Debug, Clone)]
pub struct InventoryAlert {
    pub alert_type: InventoryAlertType,
    pub item_key: String,
    pub message: String,
    pub severity: AlertSeverity,
    pub recommended_action: Option<String>,
}

/// The texts of `parts`.
pub open spec fn texts(parts: Seq<String>) -> Seq<Seq<char>> {
    parts.map_values(|p: String| p@)
}

/// `parts` one after another with `sep` between neighbours.
pub open spec fn joined(parts: Seq<Seq<char>>, sep: Seq<char>) -> Seq<char>
    decreases parts.len(),
{
    if parts.len() == 0 {
        Seq::empty()
    } else if parts.len() == 1 {
        parts[0]
    } else {
        joined(parts.drop_last(), sep) + sep + parts.last()
    }
}

/// The first `n` of `parts`, joined with `", "`.
fn join_first(parts: &[String], n: usize) -> (r: String)
    requires
        n <= parts@.len(),
    ensures
        r@ == joined(texts(parts@.take(n as int)), ", "@),
{
    let mut s = String::new();
    let mut i: usize = 0;
    while i < n
        invariant
            i <= n,
            n <= parts@.len(),
            s@ == joined(texts(parts@.take(i as int)), ", "@),
        decreases n - i,
    {
        let ghost before = texts(parts@.take(i as int));
        let ghost after = texts(parts@.take(i as int + 1));
        assert(after.drop_last() =~= before);
        assert(after.last() == parts@[i as int]@);
        if i == 0 {
            assert(before.len() == 0);
            s = parts[i].clone();
        } else {
            s.append(", ");
            s.append(parts[i].as_str());
        }
        i = i + 1;
    }
    s
}

/// The list of lots an expired-lots alert names: up to three lot numbers,
/// then how many more there are.
pub open spec fn expired_lots_text(lot_count: nat, lot_numbers: Seq<String>) -> Seq<char> {
    if lot_count > 3 {
        joined(texts(lot_numbers.take(3)), ", "@) + " and "@ + digits_of((lot_count - 3) as nat) + " more"@
    } else {
        joined(texts(lot_numbers), ", "@)
    }
}

/// Relies on `BigDecimal`'s `Display`: the decimal text of `d`.
#[verifier::external_body]
fn decimal_display(d: &BigDecimal) -> (r: String) {
    d.to_string()
}

impl InventoryAlert {
    /// A critical alert: the item has no stock left.
    pub fn out_of_stock(item_key: &str) -> (r: InventoryAlert)
        ensures
            r.alert_type == InventoryAlertType::OutOfStock,
            r.item_key@ == item_key@,
            r.message@ == "Item "@ + item_key@ + " is out of stock"@,
            r.severity == AlertSeverity::Critical,
            r.recommended_action matches Some(a) && a@ == "Check alternative lots or contact purchasing"@,
    {
        InventoryAlert {
            alert_type: InventoryAlertType::OutOfStock,
            item_key: String::from_str(item_key),
            message: String::from_str("Item ").concat(item_key).concat(" is out of stock"),
            severity: AlertSeverity::Critical,
            recommended_action: Some(String::from_str("Check alternative lots or contact purchasing")),
        }
    }

    /// A warning: the item runs low, `current_qty` `uom` left.
    pub fn low_stock(item_key: &str, current_qty: &BigDecimal, uom: &str) -> (r: InventoryAlert)
        ensures
            r.alert_type == InventoryAlertType::LowStock,
            r.item_key@ == item_key@,
            exists|qty: Seq<char>|
                r.message@ == "Low stock: "@ + item_key@ + " has only "@ + qty + " "@ + uom@ + " remaining"@,
            r.severity == AlertSeverity::Warning,
            r.recommended_action matches Some(a) && a@ == "Consider replenishing stock soon"@,
    {
        let qty = decimal_display(current_qty);
        let message = join4("Low stock: ", item_key, " has only ", qty.as_str()).concat(" ").concat(uom).concat(
            " remaining",
        );
        InventoryAlert {
            alert_type: InventoryAlertType::LowStock,
            item_key: String::from_str(item_key),
            message,
            severity: AlertSeverity::Warning,
            recommended_action: Some(String::from_str("Consider replenishing stock soon")),
        }
    }

    /// A critical alert: `available` `uom` are on hand where `needed` are
    /// required.
    pub fn insufficient_quantity(item_key: &str, available: &BigDecimal, needed: &BigDecimal, uom: &str) -> (r:
        InventoryAlert)
        ensures
            r.alert_type == InventoryAlertType::InsufficientQuantity,
            r.item_key@ == item_key@,
            exists|have: Seq<char>, need: Seq<char>|
                r.message@ == "Insufficient quantity: "@ + item_key@ + " has "@ + have + " "@ + uom@
                    + " available, but "@ + need + " "@ + uom@ + " is needed"@,
            r.severity == AlertSeverity::Critical,
            r.recommended_action matches Some(a) && a@ == "Partial picking may be required, or find alternative lots"@,
    {
        let have = decimal_display(available);
        let need = decimal_display(needed);
        let message = join4("Insufficient quantity: ", item_key, " has ", have.as_str()).concat(" ").concat(
            uom,
        ).concat(" available, but ").concat(need.as_str()).concat(" ").concat(uom).concat(" is needed");
        InventoryAlert {
            alert_type: InventoryAlertType::InsufficientQuantity,
            item_key: String::from_str(item_key),
            message,
            severity: AlertSeverity::Critical,
            recommended_action: Some(
                String::from_str("Partial picking may be required, or find alternative lots"),
            ),
        }
    }

    /// A warning: `lot_count` lots of the item have expired. The message
    /// names the first three of `lot_numbers` and counts the rest, or names
    /// them all when there are three or fewer.
    pub fn expired_lots(item_key: &str, lot_count: usize, lot_numbers: &[String]) -> (r: InventoryAlert)
        requires
            lot_count > 3 ==> lot_numbers@.len() >= 3,
        ensures
            r.alert_type == InventoryAlertType::ExpiredLots,
            r.item_key@ == item_key@,
            r.message@ == "Item "@ + item_key@ + " has "@ + digits_of(lot_count as nat) + " expired lot(s): "@
                + expired_lots_text(lot_count as nat, lot_numbers@),
            r.severity == AlertSeverity::Warning,
            r.recommended_action matches Some(a) && a@ == "Avoid expired lots, use FIFO rotation"@,
    {
        let lots_text = if lot_count > 3 {
            let more = decimal_text((lot_count - 3) as u64);
            join_first(lot_numbers, 3).concat(" and ").concat(more.as_str()).concat(" more")
        } else {
            let all = join_first(lot_numbers, lot_numbers.len());
            assert(lot_numbers@.take(lot_numbers@.len() as int) =~= lot_numbers@);
            all
        };
        let count = decimal_text(lot_count as u64);
        let message = join4("Item ", item_key, " has ", count.as_str()).concat(" expired lot(s): ").concat(
            lots_text.as_str(),
        );
        InventoryAlert {
            alert_type: InventoryAlertType::ExpiredLots,
            item_key: String::from_str(item_key),
            message,
            severity: AlertSeverity::Warning,
            recommended_action: Some(String::from_str("Avoid expired lots, use FIFO rotation")),
        }
    }
}

} // verus!
