use spot_execution::enums::{OrderSide, OrderType};
use spot_execution::execution_persistence::{
    ExecutionWriteActivationError, ExecutionWriteKind, ExecutionWriteStageToken,
};
use spot_execution::execution_write::{
    ExecutionEndpointPath, ExecutionHttpMethod, ExecutionOrderResponseMode, ExecutionPositionSide,
    ExecutionProduct, ExecutionRoute, ExecutionTimeInForce, ExecutionTransportTargetViewV1,
    ExecutionWorkingType, ExecutionWriteContext, ExecutionWriteElementViewV1,
    ExecutionWriteGateError, ExecutionWritePayloadViewV1, FinalWritePayloadDigest,
};
use spot_execution::identifiers::{
    AccountId, ClientId, ClientOrderId, InstrumentId, VenueOrderId, UUID4,
};
use spot_execution::types::{Currency, Money, Price, Quantity};

fn quantity(text: &str, precision: u8) -> Quantity {
    Quantity::parse(text, precision).unwrap()
}

fn price(text: &str) -> Price {
    Price::parse(text, 0).unwrap()
}

fn invalid(detail: &str) -> Result<(), ExecutionWriteGateError> {
    Err(ExecutionWriteGateError::InvalidContext(detail.to_string()))
}

fn submit_fixture(
    product: ExecutionProduct,
) -> (ExecutionWriteContext, ExecutionWritePayloadViewV1) {
    let spot = product == ExecutionProduct::Spot;
    let route = if spot {
        ExecutionRoute::BinanceSpot
    } else {
        ExecutionRoute::BinanceFutures
    };
    let path = if spot {
        ExecutionEndpointPath::SpotOrder
    } else {
        ExecutionEndpointPath::FuturesOrder
    };
    let client_id = ClientId::new(if spot { "BINANCE-SPOT" } else { "BINANCE-FUTURES" });
    let account_id = AccountId::new(if spot {
        "BINANCE-SPOT-001"
    } else {
        "BINANCE-FUTURES-001"
    });
    let instrument_id = if spot {
        InstrumentId::new("BTCUSDT", "BINANCE")
    } else {
        InstrumentId::new("BTCUSDT-PERP", "BINANCE")
    };
    let client_order_id = ClientOrderId::new(if spot { "SAE-SPOT-1" } else { "SAE-FUTURES-1" });
    let context = ExecutionWriteContext {
        command_id: UUID4::from_random_bits(0x1234),
        client_id: client_id.clone(),
        account_id: account_id.clone(),
        route,
        instrument_id: Some(instrument_id.clone()),
        client_order_ids: vec![client_order_id.clone()],
        kind: ExecutionWriteKind::Submit,
    };
    let payload = ExecutionWritePayloadViewV1 {
        schema_version: 1,
        kind: ExecutionWriteKind::Submit,
        client_id,
        account_id,
        product,
        route,
        transport: ExecutionTransportTargetViewV1::Http {
            method: ExecutionHttpMethod::Post,
            path,
            recv_window_ms: 5_000,
        },
        elements: vec![ExecutionWriteElementViewV1::Submit {
            batch_index: 0,
            instrument_id,
            client_order_id,
            side: OrderSide::Buy,
            order_type: OrderType::Limit,
            time_in_force: ExecutionTimeInForce::Gtc,
            quantity: quantity("0.001", 3),
            price: Some(price("50000")),
            trigger_price: None,
            quote_quantity: None,
            display_quantity: None,
            reduce_only: false,
            post_only: false,
            position_side: None,
            close_position: None,
            working_type: None,
            price_protect: None,
            response_mode: if spot {
                ExecutionOrderResponseMode::SpotFull
            } else {
                ExecutionOrderResponseMode::FuturesOmitted
            },
            good_till_date_ms: None,
            self_trade_prevention_mode: None,
            trailing_delta: None,
            activation_price: None,
            callback_rate: None,
            price_match: None,
            strategy_id: None,
            strategy_type: None,
        }],
        retry_of: None,
    };
    (context, payload)
}

fn make_cancel(context: &mut ExecutionWriteContext, payload: &mut ExecutionWritePayloadViewV1) {
    context.kind = ExecutionWriteKind::Cancel;
    payload.kind = ExecutionWriteKind::Cancel;
    payload.transport = ExecutionTransportTargetViewV1::Http {
        method: ExecutionHttpMethod::Delete,
        path: match payload.product {
            ExecutionProduct::Spot => ExecutionEndpointPath::SpotOrder,
            ExecutionProduct::Futures => ExecutionEndpointPath::FuturesOrder,
        },
        recv_window_ms: 5_000,
    };
    payload.elements = vec![ExecutionWriteElementViewV1::Cancel {
        batch_index: 0,
        instrument_id: context.instrument_id.clone().unwrap(),
        client_order_id: context.client_order_ids[0].clone(),
        venue_order_id: None,
        cancel_request_client_order_id: None,
    }];
}

#[test]
fn supported_submit_and_exact_cancel_route_parity() {
    for product in [ExecutionProduct::Spot, ExecutionProduct::Futures] {
        let (mut context, mut payload) = submit_fixture(product);
        assert_eq!(payload.validate_first_release(&context), Ok(()));
        make_cancel(&mut context, &mut payload);
        assert_eq!(payload.validate_first_release(&context), Ok(()));
    }
}

#[test]
fn unsupported_write_classes_are_deny_only() {
    for kind in [
        ExecutionWriteKind::Modify,
        ExecutionWriteKind::SubmitList,
        ExecutionWriteKind::BatchModify,
        ExecutionWriteKind::BatchCancel,
        ExecutionWriteKind::CancelAll,
    ] {
        let (mut context, mut payload) = submit_fixture(ExecutionProduct::Spot);
        context.kind = kind;
        payload.kind = kind;
        assert!(payload.validate_first_release(&context).is_err());
    }
}

#[test]
fn websocket_order_transport_requires_exact_method_kind_parity() {
    let (context, mut payload) = submit_fixture(ExecutionProduct::Spot);
    payload.transport = ExecutionTransportTargetViewV1::WebSocketApi {
        method: "order.place".to_string(),
        recv_window_ms: 5_000,
    };
    assert_eq!(payload.validate_first_release(&context), Ok(()));
    payload.transport = ExecutionTransportTargetViewV1::WebSocketApi {
        method: "order.cancel".to_string(),
        recv_window_ms: 5_000,
    };
    assert!(payload.validate_first_release(&context).is_err());
}

#[test]
fn exact_cancel_rejects_venue_and_replacement_id_injection() {
    let (mut context, mut payload) = submit_fixture(ExecutionProduct::Spot);
    make_cancel(&mut context, &mut payload);
    payload.elements = vec![ExecutionWriteElementViewV1::Cancel {
        batch_index: 0,
        instrument_id: context.instrument_id.clone().unwrap(),
        client_order_id: context.client_order_ids[0].clone(),
        venue_order_id: Some(VenueOrderId::new("123")),
        cancel_request_client_order_id: None,
    }];
    assert!(payload.validate_first_release(&context).is_err());
    let ExecutionWriteElementViewV1::Cancel {
        venue_order_id,
        cancel_request_client_order_id,
        ..
    } = &mut payload.elements[0]
    else {
        unreachable!();
    };
    *venue_order_id = None;
    *cancel_request_client_order_id = Some(ClientOrderId::new("CANCEL-REPLACEMENT"));
    assert!(payload.validate_first_release(&context).is_err());
}

#[test]
fn submit_rejects_every_unsupported_native_control() {
    let (context, payload) = submit_fixture(ExecutionProduct::Futures);
    let mutations: Vec<fn(&mut ExecutionWriteElementViewV1)> = vec![
        |element| {
            if let ExecutionWriteElementViewV1::Submit { trigger_price, .. } = element {
                *trigger_price = Some(price("49000"));
            }
        },
        |element| {
            if let ExecutionWriteElementViewV1::Submit { quote_quantity, .. } = element {
                // 50 USDT
                *quote_quantity = Some(Money {
                    raw: 50 * 10_i128.pow(16),
                    currency: Currency { code: "USDT".to_string(), precision: 8 },
                });
            }
        },
        |element| {
            if let ExecutionWriteElementViewV1::Submit { display_quantity, .. } = element {
                *display_quantity = Some(quantity("0.0001", 4));
            }
        },
        |element| {
            if let ExecutionWriteElementViewV1::Submit { position_side, .. } = element {
                *position_side = Some(ExecutionPositionSide::Long);
            }
        },
        |element| {
            if let ExecutionWriteElementViewV1::Submit { close_position, .. } = element {
                *close_position = Some(true);
            }
        },
        |element| {
            if let ExecutionWriteElementViewV1::Submit { working_type, .. } = element {
                *working_type = Some(ExecutionWorkingType::MarkPrice);
            }
        },
        |element| {
            if let ExecutionWriteElementViewV1::Submit { price_protect, .. } = element {
                *price_protect = Some(true);
            }
        },
        |element| {
            if let ExecutionWriteElementViewV1::Submit { good_till_date_ms, .. } = element {
                *good_till_date_ms = Some(1);
            }
        },
        |element| {
            if let ExecutionWriteElementViewV1::Submit { self_trade_prevention_mode, .. } = element {
                *self_trade_prevention_mode = Some("EXPIRE_MAKER".to_string());
            }
        },
        |element| {
            if let ExecutionWriteElementViewV1::Submit { trailing_delta, .. } = element {
                *trailing_delta = Some(1);
            }
        },
        |element| {
            if let ExecutionWriteElementViewV1::Submit { activation_price, .. } = element {
                *activation_price = Some(price("49000"));
            }
        },
        |element| {
            if let ExecutionWriteElementViewV1::Submit { callback_rate, .. } = element {
                *callback_rate = Some("1.0".to_string());
            }
        },
        |element| {
            if let ExecutionWriteElementViewV1::Submit { price_match, .. } = element {
                *price_match = Some("OPPONENT".to_string());
            }
        },
        |element| {
            if let ExecutionWriteElementViewV1::Submit { strategy_id, .. } = element {
                *strategy_id = Some(1);
            }
        },
        |element| {
            if let ExecutionWriteElementViewV1::Submit { strategy_type, .. } = element {
                *strategy_type = Some(1_000_000);
            }
        },
    ];
    assert_eq!(payload.validate_first_release(&context), Ok(()));
    for mutate in mutations {
        let mut candidate = payload.clone();
        mutate(&mut candidate.elements[0]);
        assert!(candidate.validate_first_release(&context).is_err());
    }
}

#[test]
fn retry_requires_explicit_ancestry_and_preserves_context() {
    let (mut context, mut payload) = submit_fixture(ExecutionProduct::Spot);
    context.kind = ExecutionWriteKind::Retry;
    payload.kind = ExecutionWriteKind::Retry;
    assert!(payload.validate_first_release(&context).is_err());
    payload.retry_of = Some(FinalWritePayloadDigest([7; 32]));
    assert_eq!(payload.validate_first_release(&context), Ok(()));
}

#[test]
fn schema_and_element_count_are_fixed() {
    let text = "first release requires schema one and one request element";
    let (context, mut payload) = submit_fixture(ExecutionProduct::Spot);
    payload.schema_version = 2;
    assert_eq!(payload.validate_first_release(&context), invalid(text));
    payload.schema_version = 1;
    let twice = payload.elements[0].clone();
    payload.elements.push(twice);
    assert_eq!(payload.validate_first_release(&context), invalid(text));
    payload.elements.clear();
    assert_eq!(payload.validate_first_release(&context), invalid(text));
}

#[test]
fn command_identity_must_match() {
    let text = "command, client, account, route, or mutation kind mismatch";
    let (context, payload) = submit_fixture(ExecutionProduct::Spot);
    let mut other = context.clone();
    other.command_id = UUID4::default();
    assert_eq!(payload.validate_first_release(&other), invalid(text));
    let mut other = context.clone();
    other.client_id = ClientId::new("BINANCE-FUTURES");
    assert_eq!(payload.validate_first_release(&other), invalid(text));
    let mut other = context.clone();
    other.account_id = AccountId::new("BINANCE-SPOT-002");
    assert_eq!(payload.validate_first_release(&other), invalid(text));
    let mut other = context.clone();
    other.route = ExecutionRoute::BinanceFutures;
    assert_eq!(payload.validate_first_release(&other), invalid(text));
    let mut other = context;
    other.kind = ExecutionWriteKind::Cancel;
    assert_eq!(payload.validate_first_release(&other), invalid(text));
}

#[test]
fn order_identity_must_match() {
    let text = "instrument or exact client order identity mismatch";
    let (context, payload) = submit_fixture(ExecutionProduct::Spot);
    let mut other = context.clone();
    other.client_order_ids.push(ClientOrderId::new("SAE-SPOT-2"));
    assert_eq!(payload.validate_first_release(&other), invalid(text));
    let mut other = context.clone();
    other.client_order_ids[0] = ClientOrderId::new("SAE-SPOT-2");
    assert_eq!(payload.validate_first_release(&other), invalid(text));
    let mut other = context.clone();
    other.instrument_id = None;
    assert_eq!(payload.validate_first_release(&other), invalid(text));
    let mut other = context;
    other.instrument_id = Some(InstrumentId::new("ETHUSDT", "BINANCE"));
    assert_eq!(payload.validate_first_release(&other), invalid(text));
}

#[test]
fn product_and_transport_must_fit_the_route() {
    let (context, mut payload) = submit_fixture(ExecutionProduct::Spot);
    payload.product = ExecutionProduct::Futures;
    assert_eq!(
        payload.validate_first_release(&context),
        invalid("product and route mismatch")
    );
    payload.product = ExecutionProduct::Spot;
    let text = "transport target is outside the first-release allowlist";
    for (method, path, recv_window_ms, allowed) in [
        (ExecutionHttpMethod::Post, ExecutionEndpointPath::SpotOrder, 1, true),
        (ExecutionHttpMethod::Post, ExecutionEndpointPath::SpotOrder, 60_000, true),
        (ExecutionHttpMethod::Post, ExecutionEndpointPath::SpotOrder, 0, false),
        (ExecutionHttpMethod::Post, ExecutionEndpointPath::SpotOrder, 60_001, false),
        (ExecutionHttpMethod::Delete, ExecutionEndpointPath::SpotOrder, 5_000, false),
        (ExecutionHttpMethod::Post, ExecutionEndpointPath::FuturesOrder, 5_000, false),
    ] {
        payload.transport = ExecutionTransportTargetViewV1::Http { method, path, recv_window_ms };
        let expected = if allowed { Ok(()) } else { invalid(text) };
        assert_eq!(payload.validate_first_release(&context), expected);
    }
}

#[test]
fn elements_must_fit_the_kind() {
    let (mut context, mut payload) = submit_fixture(ExecutionProduct::Spot);
    let submit = payload.elements[0].clone();
    make_cancel(&mut context, &mut payload);
    let cancel = payload.elements[0].clone();
    payload.elements[0] = submit;
    assert_eq!(
        payload.validate_first_release(&context),
        invalid("submit element does not match mutation kind")
    );
    let (context, mut payload) = submit_fixture(ExecutionProduct::Spot);
    payload.elements[0] = cancel;
    assert_eq!(
        payload.validate_first_release(&context),
        invalid("cancel element does not match mutation kind")
    );
    payload.elements[0] = ExecutionWriteElementViewV1::Modify {
        batch_index: 0,
        instrument_id: InstrumentId::new("BTCUSDT", "BINANCE"),
        client_order_id: ClientOrderId::new("SAE-SPOT-1"),
        side: OrderSide::Buy,
        quantity: quantity("1", 0),
        price: price("1"),
    };
    assert_eq!(
        payload.validate_first_release(&context),
        Err(ExecutionWriteGateError::Unsupported(ExecutionWriteKind::Modify))
    );
}

#[test]
fn order_shape_must_be_consistent() {
    let text = "submit request is outside the first-release policy";
    let (context, payload) = submit_fixture(ExecutionProduct::Spot);
    let mutations: Vec<(fn(&mut ExecutionWriteElementViewV1), bool)> = vec![
        (
            |element| {
                if let ExecutionWriteElementViewV1::Submit { quantity, .. } = element {
                    quantity.raw = 0;
                }
            },
            false,
        ),
        (
            |element| {
                if let ExecutionWriteElementViewV1::Submit { batch_index, .. } = element {
                    *batch_index = 1;
                }
            },
            false,
        ),
        (
            |element| {
                if let ExecutionWriteElementViewV1::Submit { price, .. } = element {
                    *price = None;
                }
            },
            false,
        ),
        (
            |element| {
                if let ExecutionWriteElementViewV1::Submit { time_in_force, .. } = element {
                    *time_in_force = ExecutionTimeInForce::NotApplicable;
                }
            },
            false,
        ),
        (
            |element| {
                if let ExecutionWriteElementViewV1::Submit { post_only, .. } = element {
                    *post_only = true;
                }
            },
            false,
        ),
        (
            |element| {
                if let ExecutionWriteElementViewV1::Submit { post_only, time_in_force, .. } = element
                {
                    *post_only = true;
                    *time_in_force = ExecutionTimeInForce::Gtx;
                }
            },
            true,
        ),
        (
            |element| {
                if let ExecutionWriteElementViewV1::Submit {
                    order_type, price, time_in_force, ..
                } = element
                {
                    *order_type = OrderType::Market;
                    *price = None;
                    *time_in_force = ExecutionTimeInForce::NotApplicable;
                }
            },
            true,
        ),
        (
            |element| {
                if let ExecutionWriteElementViewV1::Submit { order_type, .. } = element {
                    *order_type = OrderType::StopLimit;
                }
            },
            false,
        ),
        (
            |element| {
                if let ExecutionWriteElementViewV1::Submit { reduce_only, .. } = element {
                    *reduce_only = true;
                }
            },
            false,
        ),
        (
            |element| {
                if let ExecutionWriteElementViewV1::Submit { response_mode, .. } = element {
                    *response_mode = ExecutionOrderResponseMode::FuturesOmitted;
                }
            },
            false,
        ),
    ];
    for (mutate, allowed) in mutations {
        let mut candidate = payload.clone();
        mutate(&mut candidate.elements[0]);
        let expected = if allowed { Ok(()) } else { invalid(text) };
        assert_eq!(candidate.validate_first_release(&context), expected);
    }
}

#[test]
fn elements_name_their_order() {
    let (_, payload) = submit_fixture(ExecutionProduct::Spot);
    assert_eq!(payload.elements[0].client_order_id().as_str(), "SAE-SPOT-1");
    assert_eq!(
        *payload.elements[0].instrument_id(),
        InstrumentId::new("BTCUSDT", "BINANCE")
    );
}

#[test]
fn gate_errors_say_what_happened() {
    let detail = || "why".to_string();
    for (error, text) in [
        (ExecutionWriteGateError::MissingGate, "execution write gate is missing"),
        (
            ExecutionWriteGateError::Unsupported(ExecutionWriteKind::CancelAll),
            "execution write is unsupported in the first release: CancelAll",
        ),
        (
            ExecutionWriteGateError::InvalidContext(detail()),
            "invalid execution write context: why",
        ),
        (
            ExecutionWriteGateError::Denied(detail()),
            "execution write authority denied: why",
        ),
        (
            ExecutionWriteGateError::ArmRejected(detail()),
            "final execution request rejected at arm: why",
        ),
    ] {
        assert_eq!(error.message(), text);
    }
    for (error, text) in [
        (
            ExecutionWriteActivationError::MissingActivator,
            "persisted execution write activator is missing",
        ),
        (
            ExecutionWriteActivationError::Rejected(detail()),
            "persisted execution write activation was rejected: why",
        ),
        (
            ExecutionWriteActivationError::Receipt(detail()),
            "persisted execution write receipt was rejected: why",
        ),
    ] {
        assert_eq!(error.message(), text);
    }
}

#[test]
fn stage_tokens_are_version_four_identifiers() {
    let token = ExecutionWriteStageToken::new(0);
    assert_eq!(token.0.bits, 0x0000_0000_0000_4000_8000_0000_0000_0000);
    assert!(!token.0.is_nil());
    assert_ne!(token, ExecutionWriteStageToken::new(1));
}
