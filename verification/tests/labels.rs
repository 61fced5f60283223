use tontine_auth::contributions::{PaymentMethod, PaymentStatus};
use tontine_auth::tontine::{TontineFrequency, TontineStatus};
use tontine_auth::tontine_rounds::RoundStatus;
use tontine_auth::transactions::{TransactionStatus, TransactionType};

#[test]
fn payment_method_labels_round_trip() {
    for m in [PaymentMethod::Cash, PaymentMethod::MobileMoney, PaymentMethod::BankTransfer] {
        let label = m.to_label();
        assert_eq!(PaymentMethod::parse(&label), Ok(m));
    }
    assert_eq!(PaymentMethod::Cash.to_label(), "cash");
    assert_eq!(PaymentMethod::MobileMoney.to_label(), "mobile_money");
    assert_eq!(PaymentMethod::BankTransfer.to_label(), "bank_transfer");
    assert!(PaymentMethod::parse("wire").is_err());
    assert!(PaymentMethod::parse("").is_err());
    assert!(PaymentMethod::parse("Cash").is_err());
}

#[test]
fn payment_status_labels_round_trip() {
    for s in [PaymentStatus::Paid, PaymentStatus::Pending, PaymentStatus::Failed] {
        let label = s.to_label();
        assert_eq!(PaymentStatus::parse(&label), Ok(s));
    }
    assert_eq!(PaymentStatus::Paid.to_label(), "paid");
    assert!(PaymentStatus::parse("unpaid").is_err());
}

#[test]
fn tontine_frequency_labels_round_trip() {
    for f in [TontineFrequency::Daily, TontineFrequency::Weekly, TontineFrequency::Monthly] {
        let label = f.to_label();
        assert_eq!(TontineFrequency::parse(&label), Ok(f));
    }
    assert_eq!(TontineFrequency::Monthly.to_label(), "monthly");
    assert!(TontineFrequency::parse("yearly").is_err());
}

#[test]
fn tontine_status_labels_round_trip() {
    for s in [TontineStatus::Active, TontineStatus::Completed, TontineStatus::Cancelled] {
        let label = s.to_label();
        assert_eq!(TontineStatus::parse(&label), Ok(s));
    }
    assert_eq!(TontineStatus::Active.to_label(), "active");
    assert!(TontineStatus::parse("paused").is_err());
}

#[test]
fn round_status_labels_round_trip() {
    for s in [RoundStatus::Pending, RoundStatus::Completed, RoundStatus::Cancelled] {
        let label = s.to_label();
        assert_eq!(RoundStatus::parse(&label), Ok(s));
    }
    assert_eq!(RoundStatus::Pending.to_label(), "pending");
    assert!(RoundStatus::parse("open").is_err());
}

#[test]
fn transaction_type_labels_round_trip() {
    for t in [TransactionType::Contribution, TransactionType::Payout, TransactionType::Refund] {
        let label = t.to_label();
        assert_eq!(TransactionType::parse(&label), Ok(t));
    }
    assert_eq!(TransactionType::Payout.to_label(), "payout");
    assert!(TransactionType::parse("deposit").is_err());
}

#[test]
fn transaction_status_labels_round_trip() {
    for s in [TransactionStatus::Completed, TransactionStatus::Pending, TransactionStatus::Failed] {
        let label = s.to_label();
        assert_eq!(TransactionStatus::parse(&label), Ok(s));
    }
    assert_eq!(TransactionStatus::Failed.to_label(), "failed");
    assert!(TransactionStatus::parse("settled").is_err());
}
