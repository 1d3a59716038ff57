use requests::contract::RequestContract;
use requests::error::ContractError;
use requests::storage::get_admin;
use requests::types::{BloodType, RequestStatus, UrgencyLevel};
use soroban_sdk::{Address, Env};

const ADMIN: &str = "GAAQCAIBAEAQCAIBAEAQCAIBAEAQCAIBAEAQCAIBAEAQCAIBAEAQDZ7H";
const HOSPITAL: &str = "GABAEAQCAIBAEAQCAIBAEAQCAIBAEAQCAIBAEAQCAIBAEAQCAIBAEJXA";
const PATIENT: &str = "CAAQCAIBAEAQCAIBAEAQCAIBAEAQCAIBAEAQCAIBAEAQCAIBAEAQC526";
const PATIENT_2: &str = "CABAEAQCAIBAEAQCAIBAEAQCAIBAEAQCAIBAEAQCAIBAEAQCAIBAFNSZ";

fn text(env: &Env, s: &str) -> soroban_sdk::String {
    soroban_sdk::String::from_str(env, s)
}

fn create_test_contract() -> (Env, Address, RequestContract) {
    let env = Env::default();
    let admin = Address::from_str(&env, ADMIN);
    let mut contract = RequestContract::new();
    assert_eq!(contract.initialize(admin.clone()), Ok(()));
    (env, admin, contract)
}

#[test]
fn test_initialize_success() {
    let (_env, admin, contract) = create_test_contract();

    let stored_admin = get_admin(&contract.store);

    assert_eq!(stored_admin, admin);
}

#[test]
fn test_initialize_already_initialized() {
    let (_env, admin, mut contract) = create_test_contract();

    let again = contract.initialize(admin);
    assert_eq!(again, Err(ContractError::AlreadyInitialized));
    assert_eq!(again.unwrap_err().code(), 0);
}

#[test]
fn test_create_request_success() {
    let (env, _admin, mut contract) = create_test_contract();

    let hospital = Address::from_str(&env, HOSPITAL);
    let patient = Address::from_str(&env, PATIENT);
    let blood_type = BloodType::OPositive;
    let quantity_ml = 450u32;
    let urgency = UrgencyLevel::Urgent;

    let current_time = 1000u64;
    let required_by = current_time + (2 * 86400);

    let delivery_address = text(&env, "Hospital Main Building");
    let procedure = text(&env, "Emergency Surgery");
    let notes = text(&env, "Type O+ preferred");

    // The hospital is not the administrator.
    let res = contract.create_request(
        current_time,
        hospital,
        blood_type,
        quantity_ml,
        urgency,
        required_by,
        delivery_address,
        patient,
        procedure,
        notes,
    );
    assert_eq!(res, Err(ContractError::NotAuthorizedHospital));
    assert_eq!(res.unwrap_err().code(), 32);
}

#[test]
fn test_create_request_unauthorized_hospital() {
    let (env, _admin, mut contract) = create_test_contract();

    let hospital = Address::from_str(&env, HOSPITAL);
    let patient = Address::from_str(&env, PATIENT);
    let blood_type = BloodType::APositive;
    let quantity_ml = 450u32;
    let urgency = UrgencyLevel::Normal;

    let current_time = 1000u64;
    let required_by = current_time + (2 * 86400);

    let delivery_address = text(&env, "Hospital Main");
    let procedure = text(&env, "Surgery");
    let notes = text(&env, "Notes");

    let res = contract.create_request(
        current_time,
        hospital,
        blood_type,
        quantity_ml,
        urgency,
        required_by,
        delivery_address,
        patient,
        procedure,
        notes,
    );
    assert_eq!(res, Err(ContractError::NotAuthorizedHospital));
    assert_eq!(res.unwrap_err().code(), 32);
}

#[test]
fn test_create_request_invalid_quantity_too_low() {
    let (env, admin, mut contract) = create_test_contract();

    let patient = Address::from_str(&env, PATIENT);
    let blood_type = BloodType::BPositive;
    let quantity_ml = 25u32;
    let urgency = UrgencyLevel::Critical;

    let current_time = 1000u64;
    let required_by = current_time + (1 * 86400);

    let delivery_address = text(&env, "Hospital");
    let procedure = text(&env, "Surgery");
    let notes = text(&env, "Notes");

    let res = contract.create_request(
        current_time,
        admin,
        blood_type,
        quantity_ml,
        urgency,
        required_by,
        delivery_address,
        patient,
        procedure,
        notes,
    );
    assert_eq!(res, Err(ContractError::InvalidQuantity));
    assert_eq!(res.unwrap_err().code(), 16);
}

#[test]
fn test_create_request_invalid_quantity_too_high() {
    let (env, admin, mut contract) = create_test_contract();

    let patient = Address::from_str(&env, PATIENT);
    let blood_type = BloodType::BNegative;
    let quantity_ml = 6000u32;
    let urgency = UrgencyLevel::Normal;

    let current_time = 1000u64;
    let required_by = current_time + (5 * 86400);

    let delivery_address = text(&env, "Hospital");
    let procedure = text(&env, "Surgery");
    let notes = text(&env, "Notes");

    let res = contract.create_request(
        current_time,
        admin,
        blood_type,
        quantity_ml,
        urgency,
        required_by,
        delivery_address,
        patient,
        procedure,
        notes,
    );
    assert_eq!(res, Err(ContractError::InvalidQuantity));
    assert_eq!(res.unwrap_err().code(), 16);
}

#[test]
fn test_create_request_invalid_timestamp_in_past() {
    let (env, admin, mut contract) = create_test_contract();

    let patient = Address::from_str(&env, PATIENT);
    let blood_type = BloodType::ABPositive;
    let quantity_ml = 450u32;
    let urgency = UrgencyLevel::Urgent;

    let current_time = 1000u64;
    let required_by = current_time - 100u64;

    let delivery_address = text(&env, "Hospital");
    let procedure = text(&env, "Surgery");
    let notes = text(&env, "Notes");

    let res = contract.create_request(
        current_time,
        admin,
        blood_type,
        quantity_ml,
        urgency,
        required_by,
        delivery_address,
        patient,
        procedure,
        notes,
    );
    assert_eq!(res, Err(ContractError::InvalidTimestamp));
    assert_eq!(res.unwrap_err().code(), 15);
}

#[test]
fn test_create_request_invalid_timestamp_too_far() {
    let (env, admin, mut contract) = create_test_contract();

    let patient = Address::from_str(&env, PATIENT);
    let blood_type = BloodType::ABNegative;
    let quantity_ml = 450u32;
    let urgency = UrgencyLevel::Normal;

    let current_time = 1000u64;
    let required_by = current_time + (40 * 86400);

    let delivery_address = text(&env, "Hospital");
    let procedure = text(&env, "Surgery");
    let notes = text(&env, "Notes");

    let res = contract.create_request(
        current_time,
        admin,
        blood_type,
        quantity_ml,
        urgency,
        required_by,
        delivery_address,
        patient,
        procedure,
        notes,
    );
    assert_eq!(res, Err(ContractError::InvalidTimestamp));
    assert_eq!(res.unwrap_err().code(), 15);
}

#[test]
fn test_create_request_empty_delivery_address() {
    let (env, admin, mut contract) = create_test_contract();

    let patient = Address::from_str(&env, PATIENT);
    let blood_type = BloodType::OPositive;
    let quantity_ml = 450u32;
    let urgency = UrgencyLevel::Critical;

    let current_time = 1000u64;
    let required_by = current_time + (1 * 86400);

    let delivery_address = text(&env, "");
    let procedure = text(&env, "Surgery");
    let notes = text(&env, "Notes");

    let res = contract.create_request(
        current_time,
        admin,
        blood_type,
        quantity_ml,
        urgency,
        required_by,
        delivery_address,
        patient,
        procedure,
        notes,
    );
    assert_eq!(res, Err(ContractError::InvalidInput));
    assert_eq!(res.unwrap_err().code(), 12);
}

#[test]
fn test_create_multiple_requests() {
    let (env, admin, mut contract) = create_test_contract();

    let patient1 = Address::from_str(&env, PATIENT);
    let patient2 = Address::from_str(&env, PATIENT_2);

    let current_time = 1000u64;

    let delivery_address = text(&env, "Hospital");
    let procedure = text(&env, "Surgery");
    let notes = text(&env, "Notes");

    let request_id_1 = contract
        .create_request(
            current_time,
            admin.clone(),
            BloodType::OPositive,
            450u32,
            UrgencyLevel::Urgent,
            current_time + 86400,
            delivery_address.clone(),
            patient1,
            procedure.clone(),
            notes.clone(),
        )
        .unwrap();

    let request_id_2 = contract
        .create_request(
            current_time,
            admin.clone(),
            BloodType::ABNegative,
            500u32,
            UrgencyLevel::Critical,
            current_time + 3600,
            delivery_address,
            patient2,
            procedure,
            notes,
        )
        .unwrap();

    assert_eq!(request_id_1, 1);
    assert_eq!(request_id_2, 2);

    let req1 = contract.get_request(request_id_1).unwrap();
    let req2 = contract.get_request(request_id_2).unwrap();

    assert_eq!(req1.blood_type, BloodType::OPositive);
    assert_eq!(req2.blood_type, BloodType::ABNegative);
}

#[test]
fn test_update_request_status_pending_to_approved() {
    let (env, admin, mut contract) = create_test_contract();

    let patient = Address::from_str(&env, PATIENT);
    let current_time = 1000u64;

    let delivery_address = text(&env, "Hospital");
    let procedure = text(&env, "Surgery");
    let notes = text(&env, "Notes");

    let request_id = contract
        .create_request(
            current_time,
            admin.clone(),
            BloodType::OPositive,
            450u32,
            UrgencyLevel::Urgent,
            current_time + 86400,
            delivery_address,
            patient,
            procedure,
            notes,
        )
        .unwrap();

    assert_eq!(
        contract.update_request_status(current_time, &admin, request_id, RequestStatus::Approved),
        Ok(())
    );

    let request = contract.get_request(request_id).unwrap();
    assert_eq!(request.status, RequestStatus::Approved);
}

#[test]
fn test_update_request_status_approved_to_fulfilled() {
    let (env, admin, mut contract) = create_test_contract();

    let patient = Address::from_str(&env, PATIENT);
    let current_time = 1000u64;

    let delivery_address = text(&env, "Hospital");
    let procedure = text(&env, "Surgery");
    let notes = text(&env, "Notes");

    let request_id = contract
        .create_request(
            current_time,
            admin.clone(),
            BloodType::BPositive,
            500u32,
            UrgencyLevel::Normal,
            current_time + 86400,
            delivery_address,
            patient,
            procedure,
            notes,
        )
        .unwrap();

    assert_eq!(
        contract.update_request_status(current_time, &admin, request_id, RequestStatus::Approved),
        Ok(())
    );
    assert_eq!(
        contract.update_request_status(current_time, &admin, request_id, RequestStatus::Fulfilled),
        Ok(())
    );

    let request = contract.get_request(request_id).unwrap();
    assert_eq!(request.status, RequestStatus::Fulfilled);
    assert_eq!(request.fulfilled_at, Some(current_time));
}

#[test]
fn test_update_request_status_invalid_transition() {
    let (env, admin, mut contract) = create_test_contract();

    let patient = Address::from_str(&env, PATIENT);
    let current_time = 1000u64;

    let delivery_address = text(&env, "Hospital");
    let procedure = text(&env, "Surgery");
    let notes = text(&env, "Notes");

    let request_id = contract
        .create_request(
            current_time,
            admin.clone(),
            BloodType::ABPositive,
            450u32,
            UrgencyLevel::Critical,
            current_time + 3600,
            delivery_address,
            patient,
            procedure,
            notes,
        )
        .unwrap();

    // Pending cannot move straight to Fulfilled.
    let res =
        contract.update_request_status(current_time, &admin, request_id, RequestStatus::Fulfilled);
    assert_eq!(res, Err(ContractError::InvalidStatusTransition));
    assert_eq!(res.unwrap_err().code(), 41);
}

#[test]
fn test_update_request_status_from_terminal_state() {
    let (env, admin, mut contract) = create_test_contract();

    let patient = Address::from_str(&env, PATIENT);
    let current_time = 1000u64;

    let delivery_address = text(&env, "Hospital");
    let procedure = text(&env, "Surgery");
    let notes = text(&env, "Notes");

    let request_id = contract
        .create_request(
            current_time,
            admin.clone(),
            BloodType::ONegative,
            450u32,
            UrgencyLevel::Normal,
            current_time + 86400,
            delivery_address,
            patient,
            procedure,
            notes,
        )
        .unwrap();

    assert_eq!(
        contract.update_request_status(current_time, &admin, request_id, RequestStatus::Rejected),
        Ok(())
    );

    let res =
        contract.update_request_status(current_time, &admin, request_id, RequestStatus::Approved);
    assert_eq!(res, Err(ContractError::InvalidStatusTransition));
    assert_eq!(res.unwrap_err().code(), 41);
}

#[test]
fn test_assign_blood_units() {
    let (env, admin, mut contract) = create_test_contract();

    let patient = Address::from_str(&env, PATIENT);
    let current_time = 1000u64;

    let delivery_address = text(&env, "Hospital");
    let procedure = text(&env, "Surgery");
    let notes = text(&env, "Notes");

    let request_id = contract
        .create_request(
            current_time,
            admin.clone(),
            BloodType::OPositive,
            900u32,
            UrgencyLevel::Urgent,
            current_time + 86400,
            delivery_address,
            patient,
            procedure,
            notes,
        )
        .unwrap();

    let unit_ids = soroban_sdk::Vec::from_array(&env, [1u64, 2u64]);
    assert_eq!(contract.assign_blood_units(current_time, &admin, request_id, unit_ids), Ok(()));

    let request = contract.get_request(request_id).unwrap();
    assert_eq!(request.assigned_units.len(), 2);
    assert_eq!(request.assigned_units.get(0).unwrap(), 1u64);
    assert_eq!(request.assigned_units.get(1).unwrap(), 2u64);
}

#[test]
fn test_request_not_found() {
    let (_env, _admin, contract) = create_test_contract();

    let res = contract.get_request(999u64);
    assert_eq!(res.as_ref().err(), Some(&ContractError::RequestNotFound));
    assert_eq!(res.unwrap_err().code(), 40);
}

#[test]
fn test_create_request_as_admin_success() {
    let (env, admin, mut contract) = create_test_contract();

    let patient = Address::from_str(&env, PATIENT);
    let blood_type = BloodType::OPositive;
    let quantity_ml = 450u32;
    let urgency = UrgencyLevel::Urgent;

    let current_time = 1000u64;
    let required_by = current_time + (2 * 86400);

    let delivery_address = text(&env, "Hospital Main Building");
    let procedure = text(&env, "Emergency Surgery");
    let notes = text(&env, "Type O+ preferred");

    let request_id = contract
        .create_request(
            current_time,
            admin.clone(),
            blood_type,
            quantity_ml,
            urgency,
            required_by,
            delivery_address.clone(),
            patient,
            procedure,
            notes,
        )
        .unwrap();

    assert_eq!(request_id, 1);

    let request = contract.get_request(request_id).unwrap();
    assert_eq!(request.id, request_id);
    assert_eq!(request.hospital_id, admin);
    assert_eq!(request.blood_type, blood_type);
    assert_eq!(request.quantity_ml, quantity_ml);
    assert_eq!(request.urgency, urgency);
    assert_eq!(request.status, RequestStatus::Pending);
    assert_eq!(request.created_at, current_time);
    assert_eq!(request.required_by, required_by);
    assert_eq!(request.fulfilled_at, None);
    assert_eq!(request.delivery_address, delivery_address);
}
