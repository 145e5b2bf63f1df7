use alfredodev::models::{
    default_mxn, default_one, default_true, AccountType, ContactType, FlowType, OrderStatus, PlannedStatus,
    ProjectPriority, ProjectStatus, ResourceType, TransactionType, UserPermission, UserRole,
};

#[test]
fn user_role_defaults_to_admin_and_maps_strings() {
    assert_eq!(UserRole::default(), UserRole::Staff);
    assert!(UserRole::Admin.is_admin());
    assert!(!UserRole::Staff.is_admin());
    assert_eq!(UserRole::Admin.as_str(), "admin");
    assert_eq!(UserRole::Staff.as_str(), "staff");
}

#[test]
fn project_status_advances_until_terminal_states() {
    assert_eq!(ProjectStatus::Pedidos.next(), Some(ProjectStatus::Analisis));
    assert_eq!(
        ProjectStatus::EsperandoEntrega.next(),
        Some(ProjectStatus::Entregado)
    );
    assert_eq!(ProjectStatus::Entregado.next(), None);
    assert_eq!(ProjectStatus::Cancelado.next(), None);
}

#[test]
fn project_priority_and_resource_type_expose_form_values() {
    assert_eq!(ProjectPriority::Urgent.as_str(), "urgent");
    assert_eq!(ProjectPriority::Urgent.label(), "Urgente");
    assert_eq!(ResourceType::Vehicle.as_str(), "vehicle");
    assert_eq!(ResourceType::Vehicle.label(), "Vehículo");
}

#[test]
fn project_status_walks_the_whole_pipeline_in_order() {
    let mut s = ProjectStatus::Pedidos;
    let mut steps = 0;
    while let Some(n) = s.next() {
        s = n;
        steps += 1;
    }
    assert_eq!(s, ProjectStatus::Entregado);
    assert_eq!(steps, 8);
}

#[test]
fn default_admin_role_is_admin() {
    assert_eq!(UserRole::default_admin(), UserRole::Admin);
    assert_eq!(ProjectPriority::default(), ProjectPriority::Medium);
}

#[test]
fn enum_form_values_match_stored_texts() {
    assert_eq!(FlowType::Income.as_str(), "income");
    assert_eq!(AccountType::CreditCard.as_str(), "credit_card");
    assert_eq!(TransactionType::Transfer.as_str(), "transfer");
    assert_eq!(ContactType::Supplier.as_str(), "supplier");
    assert_eq!(PlannedStatus::PartiallyCovered.as_str(), "partially_covered");
    assert_eq!(OrderStatus::InProgress.as_str(), "in_progress");
    assert_eq!(OrderStatus::InProgress.label(), "En proceso");
    assert_eq!(UserPermission::ViewProjectMoney.as_str(), "view_project_money");
}

#[test]
fn serde_defaults_of_the_models() {
    assert!(default_true());
    assert_eq!(default_mxn(), "MXN");
    assert_eq!(default_one(), 1);
}
