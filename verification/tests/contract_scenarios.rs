use std::collections::BTreeMap;
use streamswap::contract::{
    dispatch_subscribe, dispatch_withdraw, execute_create_stream, execute_exit_stream,
    execute_finalize_stream, execute_update_config, execute_update_operator,
    execute_update_position, execute_update_protocol_admin, execute_update_stream, instantiate,
    page_limit, query_average_price, query_config, query_last_streamed_price, query_position,
    query_stream, query_threshold_state, ExitOutcome, FinalizeOutcome, WithdrawOutcome,
};
use streamswap::error::{ContractError, PaymentError, ThresholdError};
use streamswap::killswitch::{
    execute_cancel_stream, execute_cancel_stream_with_threshold, execute_exit_cancelled,
    execute_pause_stream, execute_resume_stream, execute_withdraw_paused, sudo_cancel_stream,
    sudo_pause_stream, sudo_resume_stream, CancelOutcome, ExitCancelledOutcome,
};
use streamswap::math::{Decimal, WideDecimal};
use streamswap::msg::{ConfigResponse, InstantiateMsg, PositionResponse, StreamResponse};
use streamswap::state::{BankSend, Coin, Config, Position, Status, Stream};
use streamswap::threshold::ThresholdState;

/// Block time of the default test environment, in nanoseconds.
const MOCK_TIME: u64 = 1_571_797_419_879_305_533;

fn secs(s: u64) -> u64 {
    s * 1_000_000_000
}

fn coin(amount: u128, denom: &str) -> Coin {
    Coin { denom: denom.to_string(), amount }
}

fn send(to: &str, denom: &str, amount: u128) -> BankSend {
    BankSend { to_address: to.to_string(), denom: denom.to_string(), amount }
}

fn dec(atomics: u128) -> WideDecimal {
    WideDecimal::raw(atomics)
}

fn not_found() -> ContractError {
    ContractError::Std("not found".to_string())
}

fn is_not_found(e: &ContractError) -> bool {
    matches!(e, ContractError::Std(m) if m == "not found")
}

fn config_msg(min_stream_seconds: u64, min_seconds_until_start_time: u64) -> InstantiateMsg {
    InstantiateMsg {
        min_stream_seconds,
        min_seconds_until_start_time,
        stream_creation_denom: "fee".to_string(),
        stream_creation_fee: 100,
        exit_fee_percent: Decimal::percent(1),
        fee_collector: "collector".to_string(),
        protocol_admin: "protocol_admin".to_string(),
        accepted_in_denom: "in".to_string(),
    }
}

/// The contract's storage, driven through the library the way the entry points drive it: a
/// request that fails leaves the storage as it was.
struct Chain {
    config: Config,
    streams: BTreeMap<u64, Stream>,
    positions: BTreeMap<(u64, String), Position>,
    thresholds: ThresholdState,
    last_id: Option<u64>,
}

impl Chain {
    fn new(msg: InstantiateMsg) -> Chain {
        Chain {
            config: instantiate(msg).unwrap(),
            streams: BTreeMap::new(),
            positions: BTreeMap::new(),
            thresholds: ThresholdState::new(),
            last_id: None,
        }
    }

    fn standard() -> Chain {
        Chain::new(config_msg(1000, 1000))
    }

    #[allow(clippy::too_many_arguments)]
    fn create_stream_full(
        &mut self,
        now: u64,
        funds: Vec<Coin>,
        treasury: &str,
        name: &str,
        url: Option<&str>,
        in_denom: &str,
        out_denom: &str,
        out_supply: u128,
        start: u64,
        end: u64,
        threshold: Option<u128>,
    ) -> Result<u64, ContractError> {
        let (id, stream) = execute_create_stream(
            &self.config,
            now,
            &funds,
            treasury.to_string(),
            name.to_string(),
            url.map(|u| u.to_string()),
            in_denom.to_string(),
            out_denom.to_string(),
            out_supply,
            start,
            end,
            threshold,
            self.last_id,
            &mut self.thresholds,
        )?;
        self.streams.insert(id, stream);
        self.last_id = Some(id);
        Ok(id)
    }

    /// A stream of `out_supply` "out_denom" against "in", paid with the right funds.
    fn create_stream(
        &mut self,
        now: u64,
        out_supply: u128,
        start: u64,
        end: u64,
        threshold: Option<u128>,
    ) -> Result<u64, ContractError> {
        self.create_stream_full(
            now,
            vec![coin(out_supply, "out_denom"), coin(100, "fee")],
            "treasury",
            "test",
            Some("https://sample.url"),
            "in",
            "out_denom",
            out_supply,
            start,
            end,
            threshold,
        )
    }

    fn stream(&self, id: u64) -> Stream {
        self.streams.get(&id).unwrap().clone()
    }

    fn query_stream(&self, id: u64) -> StreamResponse {
        query_stream(id, self.streams.get(&id).unwrap())
    }

    fn position(&self, id: u64, owner: &str) -> Option<Position> {
        self.positions.get(&(id, owner.to_string())).cloned()
    }

    fn query_position(&self, id: u64, owner: &str) -> PositionResponse {
        query_position(id, owner.to_string(), &self.position(id, owner).unwrap())
    }

    fn load_position(&self, id: u64, target: &str) -> Result<Position, ContractError> {
        self.position(id, target).ok_or_else(not_found)
    }

    fn load_stream(&self, id: u64) -> Result<Stream, ContractError> {
        self.streams.get(&id).cloned().ok_or_else(not_found)
    }

    /// Subscribes and answers the action taken: a pending or a running subscription.
    fn subscribe(
        &mut self,
        now: u64,
        id: u64,
        sender: &str,
        funds: Vec<Coin>,
        operator_target: Option<&str>,
        operator: Option<&str>,
    ) -> Result<&'static str, ContractError> {
        let stream = self.load_stream(id)?;
        let target = operator_target.unwrap_or(sender).to_string();
        let position = self.position(id, &target);
        let action = if stream.start_time > now { "subscribe_pending" } else { "subscribe" };
        let (s, p, _) = dispatch_subscribe(
            stream,
            position,
            now,
            &sender.to_string(),
            &funds,
            operator.map(|o| o.to_string()),
            &target,
        )?;
        self.streams.insert(id, s);
        self.positions.insert((id, target), p);
        Ok(action)
    }

    fn subscribe_in(&mut self, now: u64, id: u64, sender: &str, amount: u128) -> Result<&'static str, ContractError> {
        self.subscribe(now, id, sender, vec![coin(amount, "in")], None, None)
    }

    fn withdraw(
        &mut self,
        now: u64,
        id: u64,
        sender: &str,
        cap: Option<u128>,
        operator_target: Option<&str>,
    ) -> Result<WithdrawOutcome, ContractError> {
        let stream = self.load_stream(id)?;
        let target = operator_target.unwrap_or(sender).to_string();
        let position = self.load_position(id, &target)?;
        let out = dispatch_withdraw(stream, position, now, &sender.to_string(), cap, &target)?;
        self.streams.insert(id, out.stream.clone());
        self.positions.insert((id, out.position.owner.clone()), out.position.clone());
        Ok(out)
    }

    fn update_position(
        &mut self,
        now: u64,
        id: u64,
        sender: &str,
        operator_target: Option<&str>,
    ) -> Result<(u128, u128), ContractError> {
        let target = operator_target.unwrap_or(sender).to_string();
        let position = self.load_position(id, &target)?;
        let stream = self.load_stream(id)?;
        let (s, p, purchased, spent) =
            execute_update_position(stream, position, now, &sender.to_string())?;
        self.streams.insert(id, s);
        self.positions.insert((id, p.owner.clone()), p);
        Ok((purchased, spent))
    }

    fn update_stream(&mut self, now: u64, id: u64) -> Result<(Decimal, u128), ContractError> {
        let stream = self.load_stream(id)?;
        let (s, diff, released) = execute_update_stream(stream, now)?;
        self.streams.insert(id, s);
        Ok((diff, released))
    }

    fn update_operator(&mut self, id: u64, sender: &str, operator: Option<&str>) -> Result<(), ContractError> {
        let position = self.load_position(id, sender)?;
        let p = execute_update_operator(position, operator.map(|o| o.to_string()));
        self.positions.insert((id, sender.to_string()), p);
        Ok(())
    }

    fn finalize(
        &mut self,
        now: u64,
        id: u64,
        sender: &str,
        new_treasury: Option<&str>,
    ) -> Result<FinalizeOutcome, ContractError> {
        let stream = self.load_stream(id)?;
        let out = execute_finalize_stream(
            stream,
            &self.thresholds,
            id,
            &self.config.fee_collector,
            now,
            &sender.to_string(),
            new_treasury.map(|t| t.to_string()),
        )?;
        self.streams.insert(id, out.stream.clone());
        Ok(out)
    }

    fn exit(
        &mut self,
        now: u64,
        id: u64,
        sender: &str,
        operator_target: Option<&str>,
    ) -> Result<ExitOutcome, ContractError> {
        let stream = self.load_stream(id)?;
        let target = operator_target.unwrap_or(sender).to_string();
        let position = self.load_position(id, &target)?;
        let out = execute_exit_stream(
            stream,
            position,
            &self.thresholds,
            id,
            now,
            &sender.to_string(),
            &target,
        )?;
        self.streams.insert(id, out.stream.clone());
        self.positions.remove(&(id, out.position.owner.clone()));
        Ok(out)
    }

    fn pause(&mut self, now: u64, id: u64, sender: &str) -> Result<(), ContractError> {
        let stream = self.load_stream(id)?;
        let s = execute_pause_stream(&self.config, stream, now, &sender.to_string())?;
        self.streams.insert(id, s);
        Ok(())
    }

    fn sudo_pause(&mut self, now: u64, id: u64) -> Result<(), ContractError> {
        let stream = self.load_stream(id)?;
        let s = sudo_pause_stream(stream, now)?;
        self.streams.insert(id, s);
        Ok(())
    }

    fn resume(&mut self, now: u64, id: u64, sender: &str) -> Result<(), ContractError> {
        let stream = self.load_stream(id)?;
        let s = execute_resume_stream(&self.config, stream, now, &sender.to_string())?;
        self.streams.insert(id, s);
        Ok(())
    }

    fn sudo_resume(&mut self, now: u64, id: u64) -> Result<(), ContractError> {
        let stream = self.load_stream(id)?;
        let s = sudo_resume_stream(stream, now)?;
        self.streams.insert(id, s);
        Ok(())
    }

    fn cancel(&mut self, id: u64, sender: &str) -> Result<CancelOutcome, ContractError> {
        let stream = self.load_stream(id)?;
        let out = execute_cancel_stream(&self.config, stream, &sender.to_string())?;
        self.streams.insert(id, out.stream.clone());
        Ok(out)
    }

    fn sudo_cancel(&mut self, id: u64) -> Result<CancelOutcome, ContractError> {
        let stream = self.load_stream(id)?;
        let out = sudo_cancel_stream(stream)?;
        self.streams.insert(id, out.stream.clone());
        Ok(out)
    }

    fn cancel_with_threshold(&mut self, now: u64, id: u64, sender: &str) -> Result<CancelOutcome, ContractError> {
        let stream = self.load_stream(id)?;
        let out = execute_cancel_stream_with_threshold(
            stream,
            &self.thresholds,
            id,
            now,
            &sender.to_string(),
        )?;
        self.streams.insert(id, out.stream.clone());
        Ok(out)
    }

    fn withdraw_paused(
        &mut self,
        id: u64,
        sender: &str,
        cap: Option<u128>,
        operator_target: Option<&str>,
    ) -> Result<WithdrawOutcome, ContractError> {
        let stream = self.load_stream(id)?;
        let target = operator_target.unwrap_or(sender).to_string();
        let position = self.load_position(id, &target)?;
        let out = execute_withdraw_paused(stream, position, &sender.to_string(), cap, &target)?;
        self.streams.insert(id, out.stream.clone());
        self.positions.insert((id, out.position.owner.clone()), out.position.clone());
        Ok(out)
    }

    fn exit_cancelled(
        &mut self,
        now: u64,
        id: u64,
        sender: &str,
        operator_target: Option<&str>,
    ) -> Result<ExitCancelledOutcome, ContractError> {
        let stream = self.load_stream(id)?;
        let target = operator_target.unwrap_or(sender).to_string();
        let position = self.load_position(id, &target)?;
        let out = execute_exit_cancelled(
            stream,
            &position,
            &self.thresholds,
            id,
            now,
            &sender.to_string(),
            &target,
        )?;
        self.positions.remove(&(id, position.owner.clone()));
        Ok(out)
    }
}

#[test]
fn test_create_stream() {
    // Invalid exit fee
    let mut msg = config_msg(1000, 1000);
    msg.exit_fee_percent = Decimal::percent(101);
    assert_eq!(instantiate(msg), Err(ContractError::InvalidExitFeePercent));

    // Invalid stream creation fee
    let mut msg = config_msg(1000, 1000);
    msg.stream_creation_fee = 0;
    assert_eq!(instantiate(msg), Err(ContractError::InvalidStreamCreationFee));

    let mut chain = Chain::standard();
    let treasury = "treasury";
    let name = "name";
    let url = Some("https://sample.url");
    let out_supply: u128 = 50_000_000;
    let out_denom = "out_denom";

    // invalid in_denom
    let res = chain.create_stream_full(
        secs(0), vec![], treasury, name, url, "random", out_denom, out_supply, secs(3000),
        secs(100000), None,
    );
    assert_eq!(res, Err(ContractError::InDenomIsNotAccepted));

    // end < start case
    let res = chain.create_stream_full(
        MOCK_TIME, vec![], treasury, name, url, "in", out_denom, out_supply, secs(1000),
        secs(10), None,
    );
    assert_eq!(res, Err(ContractError::StreamInvalidEndTime));

    // min_stream_duration is not sufficient
    let res = chain.create_stream_full(
        secs(0), vec![], treasury, name, url, "in", out_denom, out_supply, secs(500), secs(1000),
        None,
    );
    assert_eq!(res, Err(ContractError::StreamDurationTooShort));

    // start cannot be before current time
    let res = chain.create_stream_full(
        secs(600), vec![], treasury, name, url, "in", out_denom, out_supply, secs(500),
        secs(1000), None,
    );
    assert_eq!(res, Err(ContractError::StreamInvalidStartTime));

    // stream starts too soon case
    let res = chain.create_stream_full(
        secs(401), vec![], treasury, name, url, "in", out_denom, out_supply, secs(1400),
        secs(100000), None,
    );
    assert_eq!(res, Err(ContractError::StreamStartsTooSoon));

    let start = secs(3000);
    let end = secs(100000);
    // Same in and out denom case
    let res = chain.create_stream_full(
        secs(1), vec![], treasury, name, url, "in", "in", out_supply, start, end, None,
    );
    assert_eq!(res, Err(ContractError::SameDenomOnEachSide));

    // 0 out supply case
    let res = chain.create_stream_full(
        secs(1), vec![], treasury, name, url, "in", out_denom, 0, start, end, None,
    );
    assert_eq!(res, Err(ContractError::ZeroOutSupply));

    // threshold zero case
    let res = chain.create_stream_full(
        secs(1), vec![coin(100, "fee"), coin(out_supply, out_denom)], treasury, name, url, "in",
        out_denom, out_supply, start, end, Some(0),
    );
    assert_eq!(res, Err(ContractError::ThresholdError(ThresholdError::ThresholdZero)));

    // no funds fee case
    let res = chain.create_stream_full(
        secs(1), vec![], treasury, name, url, "in", out_denom, out_supply, start, end, None,
    );
    assert_eq!(res, Err(ContractError::NoFundsSent));

    // wrong supply amount case
    let res = chain.create_stream_full(
        secs(1), vec![coin(1_000_000, "out_denom")], treasury, name, url, "in", out_denom,
        out_supply, start, end, None,
    );
    assert_eq!(res, Err(ContractError::StreamOutSupplyFundsRequired));

    // wrong creation fee case
    let res = chain.create_stream_full(
        secs(1), vec![coin(out_supply, "out_denom"), coin(99, "fee")], treasury, name, url,
        "in", out_denom, out_supply, start, end, None,
    );
    assert_eq!(res, Err(ContractError::StreamCreationFeeRequired));

    // no creation fee case
    let res = chain.create_stream_full(
        secs(1), vec![coin(out_supply, "out_denom")], treasury, name, url, "in", out_denom,
        out_supply, start, end, None,
    );
    assert_eq!(res, Err(ContractError::NoFundsSent));

    // same denom case, insufficient total
    let res = chain.create_stream_full(
        secs(1), vec![coin(1, "fee")], treasury, name, url, "in", "fee", out_supply, start, end,
        None,
    );
    assert_eq!(res, Err(ContractError::StreamOutSupplyFundsRequired));

    // same denom case, sufficient total
    chain
        .create_stream_full(
            secs(1), vec![coin(out_supply + 100, "fee")], treasury, name, url, "in", "fee",
            out_supply, start, end, None,
        )
        .unwrap();

    // same tokens extra funds sent
    let res = chain.create_stream_full(
        secs(1), vec![coin(out_supply + 100, "fee"), coin(15, "random")], treasury, name, url,
        "in", "fee", out_supply, start, end, None,
    );
    assert_eq!(res, Err(ContractError::InvalidFunds));

    // different tokens extra funds sent
    let res = chain.create_stream_full(
        secs(1),
        vec![coin(out_supply, "different_denom"), coin(100, "fee"), coin(15, "random")],
        treasury, name, url, "in", "different_denom", out_supply, start, end, None,
    );
    assert_eq!(res, Err(ContractError::InvalidFunds));

    // failed name checks
    let funds = vec![coin(out_supply, "out_denom"), coin(100, "fee")];
    let res = chain.create_stream_full(
        secs(1), funds.clone(), treasury, "n", url, "in", out_denom, out_supply, start, end, None,
    );
    assert_eq!(res, Err(ContractError::StreamNameTooShort));
    let res = chain.create_stream_full(
        secs(1), funds.clone(), treasury,
        "12345678901234567890123456789012345678901234567890123456789012345", url, "in",
        out_denom, out_supply, start, end, None,
    );
    assert_eq!(res, Err(ContractError::StreamNameTooLong));
    let res = chain.create_stream_full(
        secs(1), funds.clone(), treasury, "abc~ß", url, "in", out_denom, out_supply, start, end,
        None,
    );
    assert_eq!(res, Err(ContractError::InvalidStreamName));

    // failed url checks
    let res = chain.create_stream_full(
        secs(1), funds.clone(), treasury, "name", Some("https://a.b"), "in", out_denom,
        out_supply, start, end, None,
    );
    assert_eq!(res, Err(ContractError::StreamUrlTooShort));
    let res = chain.create_stream_full(
        secs(1), funds.clone(), treasury, "name",
        Some("https://abcdefghijklmnopqrstuvw.xyz/abcdefghijklmnopqrstuvwxyzabcdefghijklmnopqrstuvwxyz/abcdefghijklmnopqrstuvwxyzabcdefghijklmn"),
        "in", out_denom, out_supply, start, end, None,
    );
    assert_eq!(res, Err(ContractError::StreamUrlTooLong));
    let res = chain.create_stream_full(
        secs(1), funds.clone(), treasury, "name", Some("https://abc defghijklmnopqrstuvw.xyz/"),
        "in", out_denom, out_supply, start, end, None,
    );
    assert_eq!(res, Err(ContractError::InvalidStreamUrl));

    // happy path
    chain
        .create_stream_full(
            secs(1), funds, treasury, name, url, "in", out_denom, out_supply, start, end, None,
        )
        .unwrap();

    // query stream with id
    let stream = chain.query_stream(1);
    assert_eq!(stream.id, 1);
}

#[test]
fn test_subscribe() {
    let start = secs(2000);
    let end = secs(1_000_000);
    let mut chain = Chain::standard();
    chain.create_stream(secs(1), 1_000_000, start, end, None).unwrap();

    // stream ended
    let res = chain.subscribe(end + secs(1000000), 1, "creator1", vec![], None, None);
    assert_eq!(res, Err(ContractError::StreamEnded));

    // no funds
    let res = chain.subscribe(start + secs(100), 1, "creator1", vec![], None, None);
    assert_eq!(res, Err(ContractError::Payment(PaymentError::NoFunds)));

    // incorrect denom
    let res = chain.subscribe(
        start + secs(100), 1, "creator1", vec![coin(100, "wrong_denom")], None, None,
    );
    assert_eq!(res, Err(ContractError::Payment(PaymentError::MissingDenom("in".to_string()))));
    assert_eq!(chain.query_stream(1).status, Status::Waiting);

    // first subscribe
    chain.subscribe_in(start + secs(100), 1, "creator1", 1_000_000).unwrap();
    let stream = chain.query_stream(1);
    // position index not updated, in_supply updated
    assert_eq!(stream.dist_index, WideDecimal::zero());
    // see that the status is updated
    assert_eq!(stream.status, Status::Active);
    assert_eq!(stream.in_supply, 1000000);
    let position = chain.query_position(1, "creator1");
    assert_eq!(position.index, WideDecimal::zero());
    assert_eq!(position.in_balance, 1000000);

    // unauthorized subscription increase
    let res = chain.subscribe(
        start + secs(200), 1, "random", vec![coin(1_000_000, "in")], Some("creator1"), None,
    );
    assert_eq!(res, Err(ContractError::Unauthorized));

    // subscription increase
    chain.subscribe_in(start + secs(200), 1, "creator1", 1_000_000).unwrap();
    // dist index updated
    let stream = chain.query_stream(1);
    assert_eq!(stream.dist_index, dec(100_000_000_000_000));
    // dist index updated, position reduced and increased
    let position = chain.query_position(1, "creator1");
    assert_eq!(position.index, dec(100_000_000_000_000));
    assert_eq!(position.in_balance, 1999900);
}

#[test]
fn test_subscribe_pending() {
    let start = secs(5_000);
    let end = secs(10_000);
    let mut chain = Chain::standard();
    chain.create_stream(secs(200), 1_000_000, start, end, None).unwrap();

    // first subscribe
    let action = chain.subscribe_in(secs(300), 1, "creator1", 1_000_000).unwrap();
    assert_eq!(action, "subscribe_pending");
    let stream = chain.query_stream(1);
    assert_eq!(stream.status, Status::Waiting);
    assert_eq!(stream.in_supply, 1000000);
    assert_eq!(stream.shares, 1000000);

    // second subscribe still waiting
    let action = chain.subscribe_in(secs(500), 1, "creator1", 1_000_000).unwrap();
    assert_eq!(action, "subscribe_pending");
    let stream = chain.query_stream(1);
    assert_eq!(stream.status, Status::Waiting);
    assert_eq!(stream.in_supply, 2000000);

    // subscription after start time
    let action = chain.subscribe_in(secs(6000), 1, "creator2", 1_000_000).unwrap();
    // different action because stream is active
    assert_eq!(action, "subscribe");

    // update creator 1 position
    chain.update_position(secs(6000), 1, "creator1", None).unwrap();
    let position = chain.query_position(1, "creator1");
    assert_eq!(position.spent, 400000);

    let stream = chain.query_stream(1);
    assert_eq!(stream.status, Status::Active);
    assert_eq!(stream.in_supply, 3000000 - 400000);
    assert_eq!(stream.spent_in, 400000);

    // update creator 1 position at 7500
    chain.update_position(secs(7500), 1, "creator1", None).unwrap();
    let res = chain.query_position(1, "creator1");
    assert_eq!(res.purchased, 184615 + 200000);
    assert_eq!(res.spent, 2000000 / 2);

    // update creator 2 position at 3500
    chain.update_position(secs(3500), 1, "creator2", None).unwrap();
    let res = chain.query_position(1, "creator2");
    assert_eq!(res.purchased, 115384);
    // spent = in_supply * (now-last_updated) / (end-last_updated)
    assert_eq!(res.spent, 1000000 * 1500 / 4000);
    let stream = chain.query_stream(1);
    assert_eq!(stream.status, Status::Active);
    // in supply = 3000000 - (positions.spent summed)
    assert_eq!(stream.in_supply, 1625000);
}

#[test]
fn test_withdraw_pending() {
    let start = secs(2000);
    let end = secs(1_000_000);
    let mut chain = Chain::standard();
    chain.create_stream(secs(200), 1_000_000, start, end, None).unwrap();

    // first subscribe before start time
    chain.subscribe_in(secs(300), 1, "creator1", 1_000_000).unwrap();

    // update creator 1 position no distribution is expected
    let (purchased, spent) = chain.update_position(secs(350), 1, "creator1", None).unwrap();
    assert_eq!(purchased, 0);
    assert_eq!(spent, 0);

    // query stream before withdraw
    let stream = chain.query_stream(1);
    assert_eq!(stream.id, 1);
    assert_eq!(stream.dist_index, WideDecimal::zero());
    assert_eq!(stream.last_updated, secs(2000));
    assert_eq!(stream.in_supply, 1_000_000);
    assert_eq!(stream.spent_in, 0);
    assert_eq!(stream.shares, 1_000_000);

    // withdraw before start time
    let res = chain.withdraw(secs(400), 1, "creator1", Some(500_000), None).unwrap();
    assert_eq!(res.amount, 500000);
    assert_eq!(res.message, send("creator1", "in", 500000));
    let stream = chain.query_stream(1);
    assert_eq!(stream.id, 1);
    assert_eq!(stream.dist_index, WideDecimal::zero());
    assert_eq!(stream.last_updated, secs(2000));
    assert_eq!(stream.in_supply, 500_000);
    assert_eq!(stream.spent_in, 0);
    assert_eq!(stream.shares, 500_000);

    // withdraw after start time
    let res = chain.withdraw(secs(3000), 1, "creator1", Some(400_000), None).unwrap();
    assert_eq!(res.amount, 400000);
    assert_eq!(res.message, send("creator1", "in", 400000));
    let _stream = chain.query_stream(1);
}

#[test]
fn test_operator() {
    let start = secs(1_590_797_419);
    let end = secs(5_571_797_419);
    let mut chain = Chain::new(config_msg(1000, 1));
    chain.create_stream(MOCK_TIME, 1_000_000, start, end, None).unwrap();

    // random cannot make the first subscription on behalf of user
    let res = chain.subscribe(
        start + secs(100), 1, "random", vec![coin(1_000_000, "in")], Some("creator1"), None,
    );
    assert_eq!(res, Err(ContractError::Unauthorized));

    // random cannot make the first subscription on behalf of user even if defined as operator
    let res = chain.subscribe(
        start + secs(100), 1, "random", vec![coin(1_000_000, "in")], Some("creator1"),
        Some("random"),
    );
    assert_eq!(res, Err(ContractError::Unauthorized));

    // first subscription
    chain.subscribe_in(start + secs(100), 1, "creator1", 1_000_000).unwrap();

    // only owner can update
    let res = chain.update_position(start + secs(100), 1, "creator2", Some("creator1"));
    assert_eq!(res, Err(ContractError::Unauthorized));

    // owner can update with position owner field
    let res = chain.update_position(start + secs(100), 1, "creator1", Some("creator1")).unwrap();
    assert_eq!(res, (0, 0));

    // random cannot update
    let res = chain.update_position(start + secs(100), 1, "random", Some("creator1"));
    assert_eq!(res, Err(ContractError::Unauthorized));

    // random cannot withdraw
    let res = chain.withdraw(start + secs(100), 1, "random", None, Some("creator1"));
    assert!(matches!(res, Err(ContractError::Unauthorized)));

    // owner can update operator
    chain.update_operator(1, "creator1", Some("operator1")).unwrap();
    let position = chain.query_position(1, "creator1");
    assert_eq!(position.operator.unwrap().as_str(), "operator1");

    // operator can increase subscription on behalf of owner
    let action = chain
        .subscribe(
            start + secs(100), 1, "operator1", vec![coin(1_000_000, "in")], Some("creator1"),
            None,
        )
        .unwrap();
    assert_eq!(action, "subscribe");
    assert_eq!(chain.query_stream(1).in_supply, 2000000);

    // random cannot update operator
    let res = chain.update_operator(1, "random", Some("operator1"));
    assert!(is_not_found(&res.unwrap_err()));

    // operator can't update operator
    let res = chain.update_operator(1, "operator1", Some("operator2"));
    assert!(is_not_found(&res.unwrap_err()));

    // operator can update position
    let res = chain.update_position(start + secs(100), 1, "operator1", Some("creator1")).unwrap();
    assert_eq!(res, (0, 0));

    // operator can withdraw
    let res = chain.withdraw(start + secs(100), 1, "operator1", Some(5), Some("creator1")).unwrap();
    assert_eq!(res.message, send("creator1", "in", 5));

    // random cannot exit
    chain.update_stream(end + secs(100), 1).unwrap();
    let res = chain.exit(end + secs(100), 1, "random", Some("creator1"));
    assert!(matches!(res, Err(ContractError::Unauthorized)));

    chain.update_stream(end + secs(100), 1).unwrap();

    // operator can exit
    let res = chain.exit(end + secs(100), 1, "operator1", Some("creator1")).unwrap();
    assert_eq!(res.messages[0].to_address, "creator1");
}

#[test]
fn test_update_stream() {
    let start = secs(1_000_000);
    let end = secs(5_000_000);
    let mut chain = Chain::standard();
    chain.create_stream(secs(1), 1_000_000, start, end, None).unwrap();

    // update stream without subscription: no new distribution, the index stays 0
    let (_, released) = chain.update_stream(start + secs(100), 1).unwrap();
    assert_eq!(released, 0);
    assert_eq!(chain.query_stream(1).dist_index, WideDecimal::zero());

    // first subscription: the index does not grow, nothing was distributed before it
    chain
        .subscribe(start + secs(100), 1, "creator1", vec![coin(1_000_000, "in")], Some("creator1"), None)
        .unwrap();
    let res = chain.query_stream(1);
    assert_eq!(res.dist_index, WideDecimal::zero());

    // update stream again, this time with a subscriber
    chain.update_stream(start + secs(300), 1).unwrap();
    let res = chain.query_stream(1);
    assert_eq!(res.dist_index, dec(50_000_000_000_000));
}

#[test]
fn test_update_position() {
    let start = secs(1_000_000);
    let end = secs(5_000_000);
    let mut chain = Chain::standard();
    chain.create_stream(secs(1), 1_000_000, start, end, None).unwrap();

    // first subscription
    chain.subscribe_in(start + secs(100), 1, "creator1", 1_000_000).unwrap();

    // non owner operator cannot update position
    let err = chain.update_position(start + secs(3_000_000), 1, "random", Some("creator1"));
    assert_eq!(err, Err(ContractError::Unauthorized));

    // update position
    chain.update_position(start + secs(3_000_000), 1, "creator1", None).unwrap();
    let position = chain.query_position(1, "creator1");
    assert_eq!(position.index, dec(749_993_000_000_000_000));
    assert_eq!(position.purchased, 749_993);
    assert_eq!(position.spent, 749_993);
    assert_eq!(position.in_balance, 250_007);
    let stream = chain.query_stream(1);
    assert_eq!(stream.dist_index, dec(749_993_000_000_000_000));

    // can update position after stream ends
    chain.update_position(end + secs(1), 1, "creator1", None).unwrap();
    let stream = chain.query_stream(1);
    assert_eq!(stream.dist_index, dec(1_000_000_000_000_000_000));
    assert_eq!(stream.in_supply, 0);
    let position = chain.query_position(1, "creator1");
    assert_eq!(position.index, dec(1_000_000_000_000_000_000));
    assert_eq!(position.spent, 1_000_000);
    assert_eq!(position.in_balance, 0);
    assert_eq!(stream.out_supply, 1_000_000);
    assert_eq!(position.purchased, stream.out_supply);
}

#[test]
fn test_rounding_leftover() {
    let start = secs(1_000_000);
    let end = secs(5_000_000);
    let mut chain = Chain::standard();
    chain.create_stream(secs(1), 1_000_000_000_000, start, end, None).unwrap();

    chain.subscribe_in(start + secs(100), 1, "creator1", 1_000_000_000).unwrap();
    chain.subscribe_in(start + secs(100_000), 1, "creator2", 3_000_000_000).unwrap();

    // update position creator1
    chain.update_position(start + secs(3_000_000), 1, "creator1", None).unwrap();
    let position = chain.query_position(1, "creator1");
    assert_eq!(position.index, dec(202_813_614_449_380_587_585));
    assert_eq!(position.purchased, 202_813_614_449);
    assert_eq!(position.spent, 749_993_750);
    assert_eq!(position.in_balance, 250_006_250);
    let stream = chain.query_stream(1);
    assert_eq!(stream.dist_index, dec(202_813_614_449_380_587_585));

    // update position creator2
    chain.update_position(start + secs(3_575_000), 1, "creator2", None).unwrap();
    let position = chain.query_position(1, "creator2");
    assert_eq!(position.index, dec(238_074_595_237_060_799_266));
    assert_eq!(position.purchased, 655672748445);
    assert_eq!(position.spent, 2673076923);
    assert_eq!(position.in_balance, 326923077);
    let stream = chain.query_stream(1);
    assert_eq!(stream.dist_index, dec(238_074_595_237_060_799_266));

    // update position after stream ends
    chain.update_position(end + secs(1), 1, "creator1", None).unwrap();
    let stream = chain.query_stream(1);
    assert_eq!(stream.dist_index, dec(264_137_059_297_637_397_644));
    assert_eq!(stream.in_supply, 0);
    let position1 = chain.query_position(1, "creator1");
    assert_eq!(position1.index, dec(264_137_059_297_637_397_644));
    assert_eq!(position1.spent, 1_000_000_000);
    assert_eq!(position1.in_balance, 0);

    chain.update_position(end + secs(1), 1, "creator2", None).unwrap();
    let stream = chain.query_stream(1);
    assert_eq!(stream.dist_index, dec(264_137_059_297_637_397_644));
    assert_eq!(stream.in_supply, 0);
    let position2 = chain.query_position(1, "creator2");
    assert_eq!(position2.index, dec(264_137_059_297_637_397_644));
    assert_eq!(position2.spent, 3_000_000_000);
    assert_eq!(position2.in_balance, 0);
    assert_eq!(stream.out_remaining, 0);
    // 1 difference due to rounding
    assert_eq!(position1.purchased + position2.purchased, stream.out_supply - 1);
}

#[test]
fn test_withdraw() {
    let start = secs(1_000_000);
    let end = secs(5_000_000);
    let mut chain = Chain::new(config_msg(1000, 0));
    chain.create_stream(secs(0), 1_000_000_000_000, start, end, None).unwrap();

    // first subscription
    let funds: u128 = 2_000_000_000_000;
    chain.subscribe_in(start, 1, "creator1", funds).unwrap();

    // withdraw amount zero
    let res = chain.withdraw(start + secs(5000), 1, "creator1", Some(0), None);
    assert!(matches!(res, Err(ContractError::InvalidWithdrawAmount)));

    // withdraw amount too high
    let res = chain.withdraw(start + secs(5000), 1, "creator1", Some(2_250_000_000_000), None);
    assert!(matches!(res, Err(ContractError::WithdrawAmountExceedsBalance(2250000000000))));

    // withdraw with valid cap
    let cap: u128 = 25_000_000;
    chain.withdraw(start + secs(5000), 1, "creator1", Some(cap), None).unwrap();
    let position = chain.query_position(1, "creator1");
    assert_eq!(position.in_balance, 1_997_475_000_000);
    assert_eq!(position.spent, 2_500_000_000);
    assert_eq!(position.purchased, 1_250_000_000);
    // first fund amount should be equal to in_balance + spent + cap
    assert_eq!(position.in_balance + position.spent + cap, funds);

    // withdraw everything
    let res = chain.withdraw(start + secs(1_000_000), 1, "creator1", None, None).unwrap();
    let position = chain.query_position(1, "creator1");
    assert_eq!(position.in_balance, 0);
    assert_eq!(position.spent, 499_993_773_466);
    assert_eq!(position.purchased, 249_999_999_998);
    assert_eq!(position.shares, 0);
    assert_eq!(res.message, send("creator1", "in", 1_499_981_226_534));

    // can't withdraw after stream ends
    let res = chain.withdraw(end + secs(1), 1, "creator1", None, None);
    assert!(matches!(res, Err(ContractError::StreamEnded)));
}

#[test]
fn test_finalize_stream() {
    let start = secs(1_000_000);
    let end = secs(5_000_000);
    let mut chain = Chain::new(config_msg(1000, 0));
    chain.create_stream(secs(0), 1_000_000_000_000, start, end, None).unwrap();

    // first subscription
    chain.subscribe_in(start + secs(1_000_000), 1, "creator1", 2_000_000_000_000).unwrap();

    // only treasury can finalize
    let res = chain.finalize(end + secs(1), 1, "random", None);
    assert!(matches!(res, Err(ContractError::Unauthorized)));

    // can't finalize before stream ends
    let res = chain.finalize(start + secs(1), 1, "treasury", None);
    assert!(matches!(res, Err(ContractError::StreamNotEnded)));

    // happy path
    let res = chain.finalize(end + secs(1), 1, "treasury", None).unwrap();
    assert_eq!(res.treasury, "treasury");
    assert_eq!(res.creator_revenue, 1980000000000);
    assert_eq!(res.stream.out_remaining, 0);
    assert_eq!(res.total_sold, 1000000000000);
    assert_eq!(res.swap_fee, 20000000000);
    assert_eq!(res.stream.stream_creation_fee, 100);
    assert_eq!(
        res.messages,
        vec![
            send("treasury", "in", 1_980_000_000_000),
            send("collector", "fee", 100),
            send("collector", "in", 20_000_000_000),
        ]
    );
}

#[test]
fn test_recurring_finalize_stream_calls() {
    let start = secs(10);
    let end = secs(110);
    let mut msg = config_msg(100, 0);
    msg.accepted_in_denom = "uosmo".to_string();
    let mut chain = Chain::new(msg);
    chain
        .create_stream_full(
            secs(0), vec![coin(1000, "myToken"), coin(100, "fee")], "treasury", "test",
            Some("https://sample.url"), "uosmo", "myToken", 1000, start, end, None,
        )
        .unwrap();

    // First subscription
    chain.subscribe(start + secs(1), 1, "user1", vec![coin(200, "uosmo")], None, None).unwrap();

    // First call
    let res = chain.finalize(end + secs(1), 1, "treasury", None).unwrap();
    assert_eq!(
        res.messages,
        vec![
            send("treasury", "uosmo", 198),
            send("collector", "fee", 100),
            send("collector", "uosmo", 2),
        ]
    );
    // Check stream status
    assert_eq!(chain.query_stream(1).status, Status::Finalized);

    // Sequential calls are refused
    let res = chain.finalize(end + secs(1), 1, "treasury", None);
    assert!(matches!(res, Err(ContractError::StreamAlreadyFinalized)));
}

#[test]
fn test_exit_stream() {
    let start = secs(1_000_000);
    let end = secs(5_000_000);
    let mut chain = Chain::new(config_msg(1000, 0));
    chain
        .create_stream_full(
            secs(0), vec![coin(1_000_000_000_000, "out_denom"), coin(100, "fee")], "treasury",
            "test", Some("https://sample.url"), "in", "out_denom", 1_000_000_000_000, start, end,
            None,
        )
        .unwrap();

    // first subscription
    chain.subscribe_in(start + secs(1_000_000), 1, "creator1", 2_000_000_000_000).unwrap();

    // can't exit before stream ends
    let res = chain.exit(start + secs(2_000_000), 1, "creator1", None);
    assert!(matches!(res, Err(ContractError::StreamNotEnded)));

    // failed exit from random address
    let res = chain.exit(end + secs(3_000_000), 1, "random", Some("creator1"));
    assert!(matches!(res, Err(ContractError::Unauthorized)));

    // can exit
    let res = chain.exit(end + secs(3_000_000), 1, "creator1", None).unwrap();
    assert_eq!(res.messages, vec![send("creator1", "out_denom", 1_000_000_000_000)]);

    // position deleted
    let res = chain.exit(end + secs(4_000_000), 1, "creator1", None);
    assert!(is_not_found(&res.err().unwrap()));
}

#[test]
fn test_withdraw_all_before_exit_case() {
    let start = secs(1_000_000);
    let end = secs(5_000_000);
    let mut chain = Chain::new(config_msg(1000, 0));
    chain.create_stream(secs(0), 1_000_000_000_000, start, end, None).unwrap();

    chain.subscribe_in(start + secs(1_000_000), 1, "creator1", 2_000_000_000_000).unwrap();
    chain.subscribe_in(start + secs(1_000_000), 1, "creator2", 1_000_000_000_000).unwrap();

    // first withdraw
    chain.withdraw(end - secs(1_000_000), 1, "creator1", None, None).unwrap();
    // second withdraw
    chain.withdraw(end - secs(1_000_000), 1, "creator2", None, None).unwrap();

    // can exit
    chain.update_stream(end + secs(1_000_000), 1).unwrap();
    chain.exit(end + secs(1_000_001), 1, "creator1", None).unwrap();
    chain.exit(end + secs(1_000_002), 1, "creator2", None).unwrap();
}

#[test]
fn test_price_feed() {
    let start = secs(1_000_000);
    let end = secs(5_000_000);
    let mut chain = Chain::new(config_msg(1000, 0));
    chain.create_stream(secs(0), 1_000_000, start, end, None).unwrap();

    // first subscription
    chain.subscribe_in(start + secs(1_000_000), 1, "creator1", 3_000).unwrap();

    // check current streamed price before update
    let res = query_last_streamed_price(&chain.stream(1));
    assert_eq!(res.current_streamed_price, WideDecimal::zero());

    // check current streamed price after update
    chain.update_stream(start + secs(2_000_000), 1).unwrap();
    let res = query_last_streamed_price(&chain.stream(1));
    // approx 1000/333333
    assert_eq!(res.current_streamed_price, dec(2_997_002_997_002_997));

    // second subscription
    chain.subscribe_in(start + secs(2_000_000), 1, "creator2", 1_000).unwrap();
    let res = query_last_streamed_price(&chain.stream(1));
    assert_eq!(res.current_streamed_price, dec(2_997_002_997_002_997));

    // check current streamed price after update
    chain.update_stream(start + secs(3_000_000), 1).unwrap();
    let res = query_last_streamed_price(&chain.stream(1));
    // approx 2000/333333
    assert_eq!(res.current_streamed_price, dec(4_500_004_500_004_500));

    // check average streamed price
    let res = query_average_price(&chain.stream(1)).unwrap();
    // approx 2500/333333
    assert_eq!(res.average_price, dec(3_748_503_748_503_748));

    // withdraw creator 1
    chain.withdraw(start + secs(3_500_000), 1, "creator1", None, None).unwrap();
    let res = query_last_streamed_price(&chain.stream(1));
    assert_eq!(res.current_streamed_price, dec(4_499_991_000_017_999));

    // test price after withdraw
    chain.update_stream(start + secs(3_750_000), 1).unwrap();
    let res = query_last_streamed_price(&chain.stream(1));
    assert_eq!(res.current_streamed_price, dec(1_500_006_000_024_000));
}

impl Chain {
    #[allow(clippy::too_many_arguments)]
    fn update_config(
        &mut self,
        sender: &str,
        min_stream_duration: Option<u64>,
        min_duration_until_start_time: Option<u64>,
        stream_creation_denom: Option<&str>,
        stream_creation_fee: Option<u128>,
        fee_collector: Option<&str>,
        accepted_in_denom: Option<&str>,
        exit_fee_percent: Option<Decimal>,
    ) -> Result<(), ContractError> {
        execute_update_config(
            &mut self.config,
            &sender.to_string(),
            min_stream_duration,
            min_duration_until_start_time,
            stream_creation_denom.map(|s| s.to_string()),
            stream_creation_fee,
            fee_collector.map(|s| s.to_string()),
            accepted_in_denom.map(|s| s.to_string()),
            exit_fee_percent,
        )
    }

    fn query_config(&self) -> ConfigResponse {
        query_config(&self.config)
    }
}

#[test]
fn test_update_protocol_admin() {
    let mut chain = Chain::new(config_msg(1000, 0));

    // random cannot update
    let err = execute_update_protocol_admin(
        &mut chain.config,
        &"random".to_string(),
        "new_protocol_admin".to_string(),
    );
    assert_eq!(err, Err(ContractError::Unauthorized));

    // protocol admin can update
    execute_update_protocol_admin(
        &mut chain.config,
        &"protocol_admin".to_string(),
        "new_protocol_admin".to_string(),
    )
    .unwrap();
    assert_eq!(chain.query_config().protocol_admin, "new_protocol_admin".to_string());
}

#[test]
fn test_execute_update_config() {
    let mut chain = Chain::new(config_msg(1000, 0));

    // check config
    let config_response = chain.query_config();
    assert_eq!(config_response.min_stream_seconds, 1000);
    assert_eq!(config_response.min_seconds_until_start_time, 0);
    assert_eq!(config_response.stream_creation_denom, "fee".to_string());
    assert_eq!(config_response.stream_creation_fee, 100);
    assert_eq!(config_response.fee_collector, "collector".to_string());
    assert_eq!(config_response.protocol_admin, "protocol_admin".to_string());
    assert_eq!(config_response.accepted_in_denom, "in".to_string());

    // random user cant update config
    let res = chain.update_config(
        "random", Some(2000), Some(2000), Some("fee2"), Some(200), Some("collector2"),
        Some("new_denom"), Some(Decimal::percent(2)),
    );
    assert_eq!(res, Err(ContractError::Unauthorized));

    // wrong fee amount
    let res = chain.update_config(
        "protocol_admin", Some(2000), Some(2000), Some("fee2"), Some(0), Some("collector2"),
        Some("new_denom"), Some(Decimal::percent(2)),
    );
    assert_eq!(res, Err(ContractError::InvalidStreamCreationFee));

    // wrong exit fee percent
    let res = chain.update_config(
        "protocol_admin", Some(2000), Some(2000), Some("fee2"), Some(200), Some("collector2"),
        Some("new_denom"), Some(Decimal::percent(101)),
    );
    assert_eq!(res, Err(ContractError::InvalidExitFeePercent));

    // protocol admin can update config
    chain
        .update_config(
            "protocol_admin", Some(2000), Some(2000), Some("fee2"), Some(200), Some("collector2"),
            Some("new_denom"), Some(Decimal::percent(2)),
        )
        .unwrap();
    let config_response = chain.query_config();
    assert_eq!(config_response.min_stream_seconds, 2000);
    assert_eq!(config_response.min_seconds_until_start_time, 2000);
    assert_eq!(config_response.stream_creation_denom, "fee2".to_string());
    assert_eq!(config_response.stream_creation_fee, 200);
    assert_eq!(config_response.fee_collector, "collector2".to_string());
    assert_eq!(config_response.protocol_admin, "protocol_admin".to_string());
    assert_eq!(config_response.accepted_in_denom, "new_denom".to_string());
    assert_eq!(config_response.exit_fee_percent, Decimal::percent(2));

    // create stream
    chain
        .create_stream_full(
            secs(0), vec![coin(1000, "out"), coin(200, "fee2")], "treasury", "test",
            Some("https://sample.url"), "new_denom", "out", 1000, secs(10000), secs(1000000),
            None,
        )
        .unwrap();

    // update config during stream
    chain
        .update_config(
            "protocol_admin", Some(3000), Some(4000), Some("fee3"), Some(300), Some("collector3"),
            Some("new_denom2"), Some(Decimal::percent(5)),
        )
        .unwrap();
    let config_response = chain.query_config();
    assert_eq!(config_response.min_stream_seconds, 3000);
    assert_eq!(config_response.min_seconds_until_start_time, 4000);
    assert_eq!(config_response.stream_creation_denom, "fee3".to_string());
    assert_eq!(config_response.stream_creation_fee, 300);
    assert_eq!(config_response.fee_collector, "collector3".to_string());
    assert_eq!(config_response.protocol_admin, "protocol_admin".to_string());
    assert_eq!(config_response.accepted_in_denom, "new_denom2".to_string());
    assert_eq!(config_response.exit_fee_percent, Decimal::percent(5));

    // the stream keeps the fees it was created with
    let stream_response = chain.query_stream(1);
    assert_eq!(stream_response.exit_fee_percent, Decimal::percent(2));
    assert_eq!(stream_response.stream_creation_fee, 200);
}

#[test]
fn test_pause_protocol_admin() {
    let start = secs(1_000_000);
    let end = secs(5_000_000);
    let mut chain = Chain::new(config_msg(1000, 0));
    chain.create_stream(secs(0), 1_000_000_000_000, start, end, None).unwrap();

    // non protocol admin can't pause
    let res = chain.pause(start + secs(100), 1, "non_protocol_admin");
    assert_eq!(res, Err(ContractError::Unauthorized));

    // first subscription
    chain.subscribe_in(start + secs(1_000_000), 1, "position1", 3_000).unwrap();

    // can't pause before start time
    let res = chain.pause(start - secs(500_000), 1, "protocol_admin");
    assert_eq!(res, Err(ContractError::StreamNotStarted));

    // can't pause after end time
    let res = chain.pause(end + secs(500_000), 1, "protocol_admin");
    assert_eq!(res, Err(ContractError::StreamEnded));

    // protocol admin can pause
    chain.pause(start + secs(1_000_001), 1, "protocol_admin").unwrap();

    // can't paused if already paused
    let res = chain.pause(start + secs(1_000_005), 1, "protocol_admin");
    assert_eq!(res, Err(ContractError::StreamKillswitchActive));

    // can't subscribe new
    let res = chain.subscribe_in(start + secs(1_000_002), 1, "position2", 3_000);
    assert_eq!(res, Err(ContractError::StreamKillswitchActive));

    // can't subscribe more
    let res = chain.subscribe_in(start + secs(1_000_002), 1, "position1", 3_000);
    assert_eq!(res, Err(ContractError::StreamKillswitchActive));

    // can't withdraw
    let res = chain.withdraw(start + secs(1_000_002), 1, "position1", None, None);
    assert!(matches!(res, Err(ContractError::StreamKillswitchActive)));

    // can't update stream
    let res = chain.update_stream(start + secs(1_000_002), 1);
    assert_eq!(res, Err(ContractError::StreamPaused));

    // can't update position
    let res = chain.update_position(start + secs(1_000_002), 1, "position1", None);
    assert_eq!(res, Err(ContractError::StreamPaused));

    // can't finalize stream
    let res = chain.finalize(end + secs(1_000_002), 1, "treasury", None);
    assert!(matches!(res, Err(ContractError::StreamKillswitchActive)));

    // can't exit
    let res = chain.exit(end + secs(1_000_002), 1, "position1", None);
    assert!(matches!(res, Err(ContractError::StreamKillswitchActive)));
}

#[test]
fn test_resume_protocol_admin() {
    let start = secs(1_000_000);
    let end = secs(5_000_000);
    let mut chain = Chain::new(config_msg(1000, 0));
    chain.create_stream(secs(0), 1_000_000_000_000, start, end, None).unwrap();

    // first subscription
    chain.subscribe_in(start + secs(1_000_000), 1, "position1", 3_000).unwrap();

    // can't resume if not paused
    let res = chain.resume(start + secs(1_000_003), 1, "protocol_admin");
    assert_eq!(res, Err(ContractError::StreamNotPaused));

    // protocol admin can pause
    chain.pause(start + secs(1_000_001), 1, "protocol_admin").unwrap();

    // can't subscribe new
    let res = chain.subscribe_in(start + secs(1_000_002), 1, "position2", 3_000);
    assert_eq!(res, Err(ContractError::StreamKillswitchActive));

    // non protocol admin can't resume
    let res = chain.resume(start + secs(1_000_003), 1, "non_protocol_admin");
    assert_eq!(res, Err(ContractError::Unauthorized));

    // protocol admin can resume
    chain.resume(start + secs(1_000_003), 1, "protocol_admin").unwrap();

    // can subscribe new after resume
    let action = chain.subscribe_in(start + secs(1_000_004), 1, "position2", 3_000).unwrap();
    assert_eq!(action, "subscribe");
    assert_eq!(chain.query_position(1, "position2").owner, "position2");
    assert_eq!(chain.query_stream(1).in_supply, 6000);

    // protocol admin can pause
    chain.pause(start + secs(1_000_005), 1, "protocol_admin").unwrap();

    // cancel the stream
    chain.cancel(1, "protocol_admin").unwrap();

    // can't resume if cancelled
    let res = chain.resume(start + secs(1_000_007), 1, "protocol_admin");
    assert_eq!(res, Err(ContractError::StreamIsCancelled));
}

#[test]
fn test_cancel_protocol_admin() {
    let start = secs(1_000_000);
    let end = secs(5_000_000);
    let mut chain = Chain::new(config_msg(1000, 0));
    chain.create_stream(secs(0), 1_000_000_000_000, start, end, None).unwrap();

    // subscription
    chain
        .subscribe(start, 1, "creator1", vec![coin(2_000_000_000_000, "in")], None, Some("operator"))
        .unwrap();

    // non protocol admin can't cancel
    let err = chain.cancel(1, "non_protocol_admin");
    assert!(matches!(err, Err(ContractError::Unauthorized)));

    // cant cancel without pause
    let err = chain.cancel(1, "protocol_admin");
    assert!(matches!(err, Err(ContractError::StreamNotPaused)));

    // pause
    chain.pause(start + secs(2_000_000), 1, "protocol_admin").unwrap();

    // cancel: the out tokens and the creation fee are sent back to the treasury
    let response = chain.cancel(1, "protocol_admin").unwrap();
    assert_eq!(
        response.messages,
        vec![send("treasury", "out_denom", 1000000000000), send("treasury", "fee", 100)]
    );

    // can't cancel cancelled stream
    let response = chain.cancel(1, "protocol_admin");
    assert!(matches!(response, Err(ContractError::StreamIsCancelled)));
}

#[test]
fn test_withdraw_pause() {
    let start = secs(1_000_000);
    let end = secs(5_000_000);
    let mut chain = Chain::new(config_msg(1000, 0));
    chain.create_stream(secs(0), 1_000_000_000_000, start, end, None).unwrap();

    // subscription
    let funds: u128 = 2_000_000_000_000;
    chain
        .subscribe(start, 1, "creator1", vec![coin(funds, "in")], None, Some("operator"))
        .unwrap();

    // withdraw with cap
    let cap: u128 = 25_000_000;
    chain.withdraw(start + secs(5000), 1, "creator1", Some(cap), None).unwrap();
    let position = chain.query_position(1, "creator1");
    assert_eq!(position.in_balance, 1_997_475_000_000);
    assert_eq!(position.spent, 2_500_000_000);
    assert_eq!(position.purchased, 1_250_000_000);
    // first fund amount should be equal to in_balance + spent + cap
    assert_eq!(position.in_balance + position.spent + cap, funds);

    // can't withdraw pause
    let err = chain.withdraw_paused(1, "creator1", None, None);
    assert!(matches!(err, Err(ContractError::StreamNotPaused)));

    // pause
    chain.pause(start + secs(6000), 1, "protocol_admin").unwrap();
    let stream1_old = chain.query_stream(1);

    // Unauthorized check
    let res = chain.withdraw_paused(1, "random", None, Some("creator1"));
    assert!(matches!(res, Err(ContractError::Unauthorized)));

    // Cap exceeds in balance check
    let res = chain.withdraw_paused(1, "creator1", Some(2_000_000_000_000 + 1), None);
    assert!(matches!(res, Err(ContractError::WithdrawAmountExceedsBalance(2_000_000_000_001))));

    // Withdraw cap is zero
    let res = chain.withdraw_paused(1, "creator1", Some(0), None);
    assert!(matches!(res, Err(ContractError::InvalidWithdrawAmount)));

    // withdraw with cap
    chain.withdraw_paused(1, "creator1", Some(cap), None).unwrap();

    // withdraw after pause
    let res = chain.withdraw_paused(1, "creator1", None, None).unwrap();
    assert_eq!(res.message, send("creator1", "in", 1996950006258));

    // stream not updated
    let stream1_new = chain.query_stream(1);
    // dist_index not updated
    assert_eq!(stream1_old.dist_index, stream1_new.dist_index);
    assert_eq!(stream1_new.in_supply, 0);
    assert_eq!(stream1_new.shares, 0);

    // position updated
    let position = chain.query_position(1, "creator1");
    assert_eq!(position.in_balance, 0);
    assert_eq!(position.spent, 2_999_993_742);
    assert_eq!(position.purchased, 1_499_999_998);
    assert_eq!(position.shares, 0);
}

#[test]
fn test_resume() {
    let start = secs(1_000_000);
    let end = secs(5_000_000);
    let mut chain = Chain::new(config_msg(1000, 0));
    chain.create_stream(secs(0), 1_000_000_000_000, start, end, None).unwrap();

    // first subscription
    chain.subscribe_in(start + secs(1_000_000), 1, "position1", 3_000).unwrap();

    // cant resume if not paused
    let res = chain.sudo_resume(start + secs(1_000_000), 1);
    assert_eq!(res, Err(ContractError::StreamNotPaused));

    // pause
    let pause_date = start + secs(2_000_000);
    chain.pause(pause_date, 1, "protocol_admin").unwrap();

    // resume
    let resume_date = start + secs(3_000_000);
    chain.sudo_resume(resume_date, 1).unwrap();

    // new end date is correct
    let new_end_date = end + (resume_date - pause_date);
    assert_eq!(chain.query_stream(1).end_time, new_end_date);
}

#[test]
fn test_sudo_pause_stream() {
    let start = secs(1_000_000);
    let end = secs(5_000_000);
    let mut chain = Chain::new(config_msg(1000, 0));
    chain.create_stream(secs(0), 1_000_000_000_000, start, end, None).unwrap();

    let res = chain.sudo_pause(secs(500_000), 1);
    assert_eq!(res, Err(ContractError::StreamNotStarted));

    let res = chain.sudo_pause(secs(6_000_000), 1);
    assert_eq!(res, Err(ContractError::StreamEnded));

    chain.sudo_pause(secs(3_000_000), 1).unwrap();
    let stream = chain.query_stream(1);
    assert_eq!(stream.status, Status::Paused);
    assert_eq!(stream.pause_date, Some(secs(3_000_000)));

    let res = chain.sudo_pause(secs(4_000_000), 1);
    assert_eq!(res, Err(ContractError::StreamKillswitchActive));
}

#[test]
fn test_range_queries() {
    let start = secs(2000);
    let end = secs(1_000_000);
    let mut chain = Chain::standard();

    // first stream
    chain.create_stream(secs(1), 1_000_000, start, end, None).unwrap();
    // second stream
    chain.create_stream(secs(1), 1_000_000, start, end, None).unwrap();

    let listed: Vec<StreamResponse> = chain
        .streams
        .iter()
        .take(page_limit(None))
        .map(|(id, s)| query_stream(*id, s))
        .collect();
    assert_eq!(listed.len(), 2);

    // first subscription to first stream
    chain.subscribe_in(start + secs(100), 1, "creator1", 1_000_000).unwrap();
    // second subscription to first stream
    chain.subscribe_in(start + secs(100), 1, "creator2", 1_000_000).unwrap();

    let positions: Vec<PositionResponse> = chain
        .positions
        .iter()
        .filter(|((id, _), _)| *id == 1)
        .take(page_limit(None))
        .map(|((id, owner), p)| query_position(*id, owner.clone(), p))
        .collect();
    assert_eq!(positions.len(), 2);
}

#[test]
fn test_exit_cancel() {
    let start = secs(1_000_000);
    let end = secs(5_000_000);
    let mut chain = Chain::new(config_msg(1000, 0));
    chain.create_stream(secs(0), 1_000_000_000_000, start, end, None).unwrap();

    // subscription
    chain
        .subscribe(start, 1, "creator1", vec![coin(2_000_000_000_000, "in")], None, Some("operator"))
        .unwrap();

    // cant cancel without pause
    let err = chain.sudo_cancel(1);
    assert!(matches!(err, Err(ContractError::StreamNotPaused)));

    // pause
    chain.pause(start + secs(2_000_000), 1, "protocol_admin").unwrap();

    // can't exit before cancel
    let res = chain.exit_cancelled(start + secs(2_250_000), 1, "creator1", None);
    assert!(matches!(res, Err(ContractError::StreamNotCancelled)));

    // cancel: out tokens and the creation fee are sent back to the treasury
    let response = chain.sudo_cancel(1).unwrap();
    assert_eq!(
        response.messages,
        vec![send("treasury", "out_denom", 1000000000000), send("treasury", "fee", 100)]
    );

    // random operator can't exit
    let res = chain.exit_cancelled(start + secs(2_250_000), 1, "random", Some("creator1"));
    assert!(matches!(res, Err(ContractError::Unauthorized)));

    // exit
    let res = chain.exit_cancelled(start + secs(3_000_000), 1, "creator1", None).unwrap();
    assert_eq!(res.message, send("creator1", "in", 2000000000000));
}

fn threshold_chain(threshold: u128) -> Chain {
    let mut msg = config_msg(1000, 0);
    msg.accepted_in_denom = "in_denom".to_string();
    let mut chain = Chain::new(msg);
    chain
        .create_stream_full(
            secs(0), vec![coin(500, "out_denom"), coin(100, "fee")], "treasury", "test",
            Some("https://sample.url"), "in_denom", "out_denom", 500, secs(1_000_000),
            secs(5_000_000), Some(threshold),
        )
        .unwrap();
    chain
}

#[test]
fn test_threshold_reached() {
    let start = secs(1_000_000);
    let end = secs(5_000_000);
    let mut chain = threshold_chain(250);

    // subscription
    chain
        .subscribe(start, 1, "subscriber", vec![coin(252, "in_denom")], None, Some("operator"))
        .unwrap();

    // Threshold reached: exit is possible; rounding down leaves one out token in the stream
    let res = chain.exit(end + secs(1), 1, "subscriber", None).unwrap();
    assert_eq!(res.messages, vec![send("subscriber", "out_denom", 499)]);

    // Creator finalizes the stream
    let res = chain.finalize(end + secs(1), 1, "treasury", None).unwrap();
    // Creator's revenue
    assert_eq!(res.messages[0], send("treasury", "in_denom", 250));
    assert_eq!(res.messages[1], send("collector", "fee", 100));
    assert_eq!(res.messages[2], send("collector", "in_denom", 2));
}

#[test]
fn test_threshold_not_reached() {
    let start = secs(1_000_000);
    let end = secs(5_000_000);
    let mut chain = threshold_chain(500);

    // Subscription 1
    chain
        .subscribe(start, 1, "subscriber", vec![coin(250, "in_denom")], None, Some("operator"))
        .unwrap();
    // Subscription 2
    chain
        .subscribe(start, 1, "subscriber2", vec![coin(1, "in_denom")], None, Some("operator"))
        .unwrap();

    // Exit should not be possible
    let res = chain.exit(end + secs(1), 1, "subscriber", None);
    assert!(matches!(
        res,
        Err(ContractError::ThresholdError(ThresholdError::ThresholdNotReached))
    ));

    // Finalize should not be possible
    let res = chain.finalize(end + secs(1), 1, "treasury", None);
    assert!(matches!(
        res,
        Err(ContractError::ThresholdError(ThresholdError::ThresholdNotReached))
    ));

    // Subscriber one executes exit cancelled before creator cancels stream
    let res = chain.exit_cancelled(end + secs(1), 1, "subscriber", None).unwrap();
    assert_eq!(res.message, send("subscriber", "in_denom", 250));

    // Creator threshold cancels the stream: the out denom is refunded
    let res = chain.cancel_with_threshold(end + secs(1), 1, "treasury").unwrap();
    assert_eq!(res.messages, vec![send("treasury", "out_denom", 500)]);

    // Creator can not finalize the stream
    let res = chain.finalize(end + secs(1), 1, "treasury", None);
    assert!(matches!(res, Err(ContractError::StreamKillswitchActive)));

    // Creator can not cancel the stream again
    let res = chain.cancel_with_threshold(end + secs(1), 1, "treasury");
    assert!(matches!(res, Err(ContractError::StreamKillswitchActive)));

    // Subscriber 2 executes exit cancelled after creator cancels stream: in denom refunded
    let res = chain.exit_cancelled(end + secs(1), 1, "subscriber2", None).unwrap();
    assert_eq!(res.message, send("subscriber2", "in_denom", 1));
}

#[test]
fn test_threshold_cancel() {
    let start = secs(1_000_000);
    let end = secs(5_000_000);
    let mut chain = threshold_chain(1_000);

    // Subscription 1
    chain
        .subscribe(start, 1, "subscriber", vec![coin(250, "in_denom")], None, Some("operator"))
        .unwrap();
    // Subscription 2
    chain
        .subscribe(start, 1, "subscriber2", vec![coin(500, "in_denom")], None, Some("operator"))
        .unwrap();

    // Can not cancel stream before it ends
    let res = chain.cancel_with_threshold(start + secs(1_000_000), 1, "treasury");
    assert!(matches!(res, Err(ContractError::StreamNotEnded)));

    // Non creator can't cancel stream
    let res = chain.cancel_with_threshold(end + secs(1), 1, "random");
    assert!(matches!(res, Err(ContractError::Unauthorized)));

    // Creator can cancel stream
    chain.cancel_with_threshold(end + secs(1), 1, "treasury").unwrap();
    assert_eq!(chain.query_stream(1).status, Status::Cancelled);
}
