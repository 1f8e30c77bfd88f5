use weather_rs::cli_parser::{Command, WeatherCli};
use weather_rs::providers::Provider;

#[test]
fn test_get_command() {
    let command = Command::ProviderList;
    let weather_cli = WeatherCli::new(command);

    let result = weather_cli.get_command();

    assert_eq!(result, &Command::ProviderList);
}

#[test]
fn test_take_command() {
    let command = Command::ProviderList;
    let weather_cli = WeatherCli::new(command);

    let result = weather_cli.take_command();

    assert_eq!(result, Command::ProviderList);
}

#[test]
fn test_command_with_arguments_is_kept() {
    let weather_cli = WeatherCli::new(Command::Get {
        address: "Kyiv".to_string(),
        date: Some("2023-10-15".to_string()),
        json: true,
        provider: Some(Provider::WeatherApi),
    });
    assert_eq!(
        weather_cli.get_command(),
        &Command::Get {
            address: "Kyiv".to_string(),
            date: Some("2023-10-15".to_string()),
            json: true,
            provider: Some(Provider::WeatherApi),
        }
    );
    let weather_cli = WeatherCli::new(Command::Configure {
        provider: Provider::OpenWeather,
        url: None,
        api_key: "k".to_string(),
    });
    assert_eq!(
        weather_cli.take_command(),
        Command::Configure { provider: Provider::OpenWeather, url: None, api_key: "k".to_string() }
    );
}
