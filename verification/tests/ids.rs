use crm_core::ids::{IdParseError, PrefixedUuid, ResourceTag};

const RAW: u128 = 0x123e4567e89b12d3a456426614174000;
const RAW_TEXT: &str = "123e4567-e89b-12d3-a456-426614174000";

#[test]
fn format_is_tag_hyphen_uuid() {
    let id = PrefixedUuid { prefix: ResourceTag::Org, raw: RAW };
    assert_eq!(id.format(), format!("org-{}", RAW_TEXT));
}

#[test]
fn format_zero_pads() {
    let id = PrefixedUuid { prefix: ResourceTag::User, raw: 0 };
    assert_eq!(id.format(), "user-00000000-0000-0000-0000-000000000000");
}

#[test]
fn format_all_ones() {
    let id = PrefixedUuid { prefix: ResourceTag::Deal, raw: u128::MAX };
    assert_eq!(id.format(), "deal-ffffffff-ffff-ffff-ffff-ffffffffffff");
}

#[test]
fn parse_round_trips_every_tag() {
    let tags = [
        ResourceTag::Org,
        ResourceTag::OrgUser,
        ResourceTag::User,
        ResourceTag::Note,
        ResourceTag::Contact,
        ResourceTag::Link,
        ResourceTag::Email,
        ResourceTag::Phone,
        ResourceTag::Task,
        ResourceTag::Deal,
    ];
    for tag in tags {
        let id = PrefixedUuid { prefix: tag, raw: RAW };
        let text = id.format();
        assert_eq!(PrefixedUuid::parse(tag, &text), Ok(id));
    }
}

#[test]
fn parse_round_trips_fresh_ids() {
    let id = PrefixedUuid::create(ResourceTag::Task);
    assert_eq!(id.prefix, ResourceTag::Task);
    let text = id.format();
    assert_eq!(PrefixedUuid::parse(ResourceTag::Task, &text), Ok(id));
}

#[test]
fn fresh_ids_differ() {
    let a = PrefixedUuid::create(ResourceTag::Org);
    let b = PrefixedUuid::create(ResourceTag::Org);
    assert_ne!(a.raw, b.raw);
}

#[test]
fn parse_rejects_wrong_tag() {
    let text = format!("org-{}", RAW_TEXT);
    assert_eq!(
        PrefixedUuid::parse(ResourceTag::User, &text),
        Err(IdParseError::WrongTag)
    );
}

#[test]
fn parse_rejects_unknown_tag() {
    let text = format!("order-{}", RAW_TEXT);
    assert_eq!(
        PrefixedUuid::parse(ResourceTag::User, &text),
        Err(IdParseError::WrongTag)
    );
}

#[test]
fn parse_accepts_uppercase_hex() {
    let text = "org-123E4567-E89B-12D3-A456-426614174000";
    assert_eq!(
        PrefixedUuid::parse(ResourceTag::Org, text),
        Ok(PrefixedUuid { prefix: ResourceTag::Org, raw: RAW })
    );
}

#[test]
fn parse_rejects_missing_hyphen() {
    assert_eq!(
        PrefixedUuid::parse(ResourceTag::Org, "orgnohyphen"),
        Err(IdParseError::Malformed)
    );
}

#[test]
fn parse_rejects_empty() {
    assert_eq!(
        PrefixedUuid::parse(ResourceTag::Org, ""),
        Err(IdParseError::Malformed)
    );
}

#[test]
fn parse_rejects_short_uuid() {
    assert_eq!(
        PrefixedUuid::parse(ResourceTag::Org, "org-123e4567"),
        Err(IdParseError::Malformed)
    );
}

#[test]
fn parse_rejects_bad_hex() {
    assert_eq!(
        PrefixedUuid::parse(ResourceTag::Org, "org-123g4567-e89b-12d3-a456-426614174000"),
        Err(IdParseError::Malformed)
    );
}

#[test]
fn parse_rejects_misplaced_hyphens() {
    assert_eq!(
        PrefixedUuid::parse(ResourceTag::Org, "org-123e45-67e89b-12d3-a456-426614174000"),
        Err(IdParseError::Malformed)
    );
}

#[test]
fn parse_rejects_simple_uuid_form() {
    assert_eq!(
        PrefixedUuid::parse(ResourceTag::Org, "org-123e4567e89b12d3a456426614174000"),
        Err(IdParseError::Malformed)
    );
}

#[test]
fn parse_rejects_bare_uuid() {
    // No tag at all: the first hyphen splits inside the uuid text.
    assert_eq!(
        PrefixedUuid::parse(ResourceTag::Org, RAW_TEXT),
        Err(IdParseError::WrongTag)
    );
}

#[test]
fn format_uuid_is_canonical() {
    assert_eq!(crm_core::ids::format_uuid(RAW), RAW_TEXT);
}

#[test]
fn tag_str_names() {
    assert_eq!(crm_core::ids::tag_str(ResourceTag::OrgUser), "orguser");
    assert_eq!(crm_core::ids::tag_str(ResourceTag::Org), "org");
}

#[test]
fn extreme_values_round_trip() {
    for raw in [0u128, 1, u128::MAX, u128::MAX - 1, 1 << 127] {
        let id = PrefixedUuid { prefix: ResourceTag::OrgUser, raw };
        assert_eq!(PrefixedUuid::parse(ResourceTag::OrgUser, &id.format()), Ok(id));
    }
}
