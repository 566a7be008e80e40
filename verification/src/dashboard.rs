//! The dashboard: one static page that asks for the snapshot once a second
//! and writes each of its fields into place.

use vstd::prelude::*;
use vstd::string::*;

verus! {

/// The text of the dashboard page.
pub const DASHBOARD: &'static str = r#"
        <!DOCTYPE html>
        <html lang="en">
        <head>
            <meta charset="UTF-8">
            <meta name="viewport" content="width=device-width, initial-scale=1.0">
            <title>Raspberry Pi Info</title>
            <link rel="icon" href="/status/favicon.ico" type="image/x-icon">
            <style>
                body {
                    font-family: Arial, sans-serif;
                    margin: 40px;
                }
                .data {
                    padding: 10px;
                    background-color: #f0f0f0;
                    margin-bottom: 20px;
                }
            </style>
            <script>
                async function fetchPiData() {
                    const response = await fetch('/status/pi-data');
                    const data = await response.json();

                    document.getElementById('cpu-usage').innerText = data.cpu_usage.toFixed(2) + '%';
                    document.getElementById('cpu-temperature').innerText = data.cpu_temperature.toFixed(2) + ' °C';
                    document.getElementById('uptime').innerText = data.uptime;
                    
                    document.getElementById('total-memory').innerText = data.total_memory + ' ' + data.total_memory_size;
                    document.getElementById('used-memory').innerText = data.used_memory + ' ' + data.used_memory_size;
                    document.getElementById('total-swap').innerText = data.total_swap + ' ' + data.total_swap_size;
                    document.getElementById('used-swap').innerText = data.used_swap + ' ' + data.used_swap_size;
                    
                    document.getElementById('name').innerText = data.name;
                }

                // Fetch data every 1 second
                setInterval(fetchPiData, 1000);

                // Fetch data when the page loads
                window.onload = fetchPiData;
            </script>
        </head>
        <body>
            <h1>Raspberry Pi System Information</h1>
            <div class="data">
                <h2>CPU Information</h2>
                <p>Uptime: <span id="uptime">Loading...</span></p>
                <p>CPU Usage: <span id="cpu-usage">Loading...</span></p>
                <p>CPU Temperature: <span id="cpu-temperature">Loading...</span></p>
            </div>
            <div class="data">
                <h2>Memory Information</h2>
                <p>Total Memory: <span id="total-memory">Loading...</span></p>
                <p>Used Memory: <span id="used-memory">Loading...</span></p>
                <p>Total Swap: <span id="total-swap">Loading...</span></p>
                <p>Used Swap: <span id="used-swap">Loading...</span></p>
            </div>
        </body>
        </html>
    "#;

/// The dashboard page, the same text on every call.
pub fn index() -> (page: String)
    ensures
        page@ == DASHBOARD@,
{
    String::from_str(DASHBOARD)
}

} // verus!
